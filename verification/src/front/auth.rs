//! Who is asking, and where they may be sent after login.

use vstd::prelude::*;
use vstd::string::StrSliceExecFns;

use super::error::AuthError;
use crate::database::models::{User, UserId};
use crate::text::{
    chars_of, contains, contains_char, find_char, first_position, has_prefix, occurs_in,
    same_text, starts_with,
};

verus! {

/// A path that is safe to redirect to after login: it stays on this site.
///
/// It begins with one slash and not with two, names no scheme, does not
/// climb out of a directory, and holds no NUL.
pub open spec fn safe_relative_path(path: Seq<char>) -> bool {
    &&& has_prefix(path, "/"@)
    &&& !has_prefix(path, "//"@)
    &&& !occurs_in(path, "://"@)
    &&& !occurs_in(path, ".."@)
    &&& !path.contains('\0')
}

/// Whether `path` is safe to redirect to after login.
pub fn is_safe_relative_path(path: &str) -> (safe: bool)
    ensures
        safe == safe_relative_path(path@),
{
    let path = chars_of(path);
    starts_with(&path, &chars_of("/")) && !starts_with(&path, &chars_of("//")) && !contains(
        &path,
        &chars_of("://"),
    ) && !contains(&path, &chars_of("..")) && !contains_char(&path, '\0')
}

/// The secret of an API key, as a request presented it.
#[derive(Clone, Debug)]
pub struct ApiKey(pub String);

/// The secret of a session, as a cookie presented it.
#[derive(Clone, Debug)]
pub struct SessionSecret(pub String);

/// Who makes an API request: the user that the presented key belongs to, if any.
#[derive(Clone, Copy, Debug)]
pub struct ApiSession {
    pub user_id: Option<UserId>,
}

impl ApiSession {
    /// The user who makes the request; refused where the request presented
    /// no key that belongs to one.
    pub fn user_id(&self) -> (result: Result<UserId, AuthError>)
        ensures
            result == match self.user_id {
                Some(id) => Ok::<UserId, AuthError>(id),
                None => Err::<UserId, AuthError>(AuthError::NotAuthenticated),
            },
    {
        match self.user_id {
            Some(id) => Ok(id),
            None => Err(AuthError::NotAuthenticated),
        }
    }
}

/// The API key that an `Authorization` header with the value `header`
/// presents: what follows `Bearer `, where that begins with `fdr_v0_`.
pub open spec fn api_key_of(header: Seq<char>) -> Option<Seq<char>> {
    let key = header.skip("Bearer "@.len() as int);
    if has_prefix(header, "Bearer "@) && has_prefix(key, "fdr_v0_"@) {
        Some(key)
    } else {
        None
    }
}

/// The API key that an `Authorization` header with the value `header` presents.
pub fn extract_api_key(header: &str) -> (key: Option<ApiKey>)
    ensures
        match key {
            Some(key) => api_key_of(header@) == Some(key.0@),
            None => api_key_of(header@) is None,
        },
{
    let chars = chars_of(header);
    let scheme = chars_of("Bearer ");
    if !starts_with(&chars, &scheme) {
        return None;
    }
    let key = header.substring_char(scheme.len(), chars.len());
    if !starts_with(&chars_of(key), &chars_of("fdr_v0_")) {
        return None;
    }
    Some(ApiKey(key.to_owned()))
}

/// The session that a `Cookie` header with the value `header` presents: what
/// follows the first `=`, where what stands before it is `session`.
pub open spec fn session_of(header: Seq<char>) -> Option<Seq<char>> {
    match first_position(header, '=') {
        Some(at) => if header.take(at) == "session"@ {
            Some(header.skip(at + 1))
        } else {
            None
        },
        None => None,
    }
}

/// The session that a `Cookie` header with the value `header` presents.
pub fn extract_session(header: &str) -> (secret: Option<SessionSecret>)
    ensures
        match secret {
            Some(secret) => session_of(header@) == Some(secret.0@),
            None => session_of(header@) is None,
        },
{
    let chars = chars_of(header);
    let end = chars.len();
    match find_char(&chars, '=') {
        None => None,
        Some(at) => {
            assert(at < end);
            let name = header.substring_char(0, at);
            let wanted = chars_of("session");
            let found = chars_of(name);
            assert(header@.take(at as int) =~= header@.subrange(0, at as int));
            if found.len() == wanted.len() && starts_with(&found, &wanted) {
                assert(found@ =~= found@.subrange(0, wanted@.len() as int));
                let value = header.substring_char(at + 1, end);
                assert(header@.skip(at + 1) =~= header@.subrange(at + 1, header@.len() as int));
                Some(SessionSecret(value.to_owned()))
            } else {
                assert(found@ != wanted@) by {
                    if found@ == wanted@ {
                        assert(found@.subrange(0, wanted@.len() as int) =~= wanted@);
                    }
                }
                None
            }
        },
    }
}

/// What a user presents to log in.
#[derive(Clone, Debug)]
pub enum LoginCredentials {
    Basic { username: String, password: String },
    DAuth { instance: String },
}

/// `password_auth::VerifyError`: why a password was not accepted. It is
/// carried through unread.
#[verifier::external_type_specification]
#[verifier::external_body]
pub struct ExVerifyError(password_auth::VerifyError);

/// Whether `password` is the password that `hash`, a hash in PHC string
/// format, was made from.
pub uninterp spec fn password_verifies(password: Seq<char>, hash: Seq<char>) -> bool;

/// Calls `password_auth::verify_password` on the bytes of `password` and on
/// `hash`. It returns `Ok` where the hash parses and the password verifies
/// against it, which depends on the two texts alone.
#[verifier::external_body]
fn verify_against(password: &str, hash: &str) -> (result: Result<(), password_auth::VerifyError>)
    ensures
        result is Ok <==> password_verifies(password@, hash@),
{
    password_auth::verify_password(password.as_bytes(), hash)
}

/// Whether a user with the password hash `secret` may log in with `password`.
pub open spec fn may_log_in(secret: Option<String>, password: Seq<char>) -> bool {
    secret matches Some(hash) && password_verifies(password, hash@)
}

/// The user, where `password` is theirs: a user without a password hash
/// cannot log in with a password.
pub fn check_password(user: User, password: &str) -> (verified: Option<User>)
    ensures
        verified == (if may_log_in(user.basic_secret, password@) {
            Some(user)
        } else {
            None
        }),
{
    let accepted = match &user.basic_secret {
        None => false,
        Some(secret) => verify_against(password, secret.as_str()).is_ok(),
    };
    if accepted {
        Some(user)
    } else {
        None
    }
}

/// Decides a login with a user name and a password, given the user that the
/// name belongs to: nobody where the name is unknown or the password wrong.
pub fn authenticate(found: Option<User>, password: &str) -> (verified: Option<User>)
    ensures
        verified == match found {
            Some(user) => if may_log_in(user.basic_secret, password@) {
                Some(user)
            } else {
                None
            },
            None => None,
        },
{
    match found {
        Some(user) => check_password(user, password),
        None => None,
    }
}

/// Where a user is sent after login, given the path that was remembered for
/// them: to that path where it is safe, else to the root.
pub open spec fn login_destination(remembered: Option<Seq<char>>) -> Seq<char> {
    match remembered {
        Some(path) => if safe_relative_path(path) {
            path
        } else {
            "/"@
        },
        None => "/"@,
    }
}

/// Where a user is sent after login.
pub fn next_after_login(remembered: Option<&str>) -> (next: String)
    ensures
        next@ == login_destination(
            match remembered {
                Some(path) => Some(path@),
                None => None,
            },
        ),
{
    match remembered {
        Some(path) => if is_safe_relative_path(path) {
            path.to_owned()
        } else {
            "/".to_owned()
        },
        None => "/".to_owned(),
    }
}

/// The path to remember while the login page is shown: the one that the
/// visitor asked for, unless that is the root already.
pub fn next_to_remember(next: Option<&str>) -> (remembered: Option<String>)
    ensures
        match next {
            Some(path) => if path@ == "/"@ {
                remembered is None
            } else {
                remembered matches Some(kept) && kept@ == path@
            },
            None => remembered is None,
        },
{
    match next {
        Some(path) => if same_text(path, "/") {
            None
        } else {
            Some(path.to_owned())
        },
        None => None,
    }
}

} // verus!
