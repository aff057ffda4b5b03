use feedr::front::auth::is_safe_relative_path;
use feedr::front::htmx::{HxNotices, HxRedirect, HxResponse, IntoHxResponse};

#[test]
fn safe_paths_stay_on_the_site() {
    assert!(is_safe_relative_path("/"));
    assert!(is_safe_relative_path("/profile"));
    assert!(is_safe_relative_path("/a/b?c=d."));
    assert!(is_safe_relative_path("/a:/b"));
}

#[test]
fn unsafe_paths_are_refused() {
    assert!(!is_safe_relative_path(""));
    assert!(!is_safe_relative_path("profile"));
    assert!(!is_safe_relative_path("//evil.example"));
    assert!(!is_safe_relative_path("https://evil.example"));
    assert!(!is_safe_relative_path("/next?u=http://evil.example"));
    assert!(!is_safe_relative_path("/a/../b"));
    assert!(!is_safe_relative_path("/.."));
    assert!(!is_safe_relative_path("/a\0b"));
}

#[test]
fn notice_is_an_out_of_band_span() {
    let notices = HxNotices::new().add("login-error", "could not authenticate");
    assert_eq!(
        notices.body(),
        r#"<span id="login-error" hx-swap-oob="innerHTML">could not authenticate</span>"#
    );
}

#[test]
fn notices_accumulate_in_order() {
    let notices = HxNotices::new().add("a", "one").add("b", "two");
    assert_eq!(
        notices.body(),
        r#"<span id="a" hx-swap-oob="innerHTML">one</span><span id="b" hx-swap-oob="innerHTML">two</span>"#
    );
    assert_eq!(HxNotices::new().body(), "");
}

#[test]
fn redirect_sets_the_location_only() {
    let response = HxRedirect::to("/profile").into_hx_response();
    assert_eq!(response.hx_location(), Some("/profile"));
    assert_eq!(response.html(), None);
    assert!(matches!(response.into_hx_response(), HxResponse::Redirect(_)));
}

#[test]
fn notices_set_the_body_only() {
    let response = HxNotices::new().add("n", "hello").into_hx_response();
    assert_eq!(response.hx_location(), None);
    assert_eq!(response.html(), Some(r#"<span id="n" hx-swap-oob="innerHTML">hello</span>"#));
}
