//! Answers that the page's htmx runtime acts on: a redirect, or notices
//! swapped into the page out of band.

use vstd::prelude::*;
use vstd::string::StringExecFns;

verus! {

/// A redirect that htmx performs on the client.
#[derive(Debug)]
pub struct HxRedirect {
    location: String,
}

/// One or more notices, each swapped into the element that it names.
#[derive(Debug)]
pub struct HxNotices {
    body: String,
}

/// An answer for htmx.
#[derive(Debug)]
pub enum HxResponse {
    Redirect(HxRedirect),
    Notices(HxNotices),
}

/// What can be turned into an answer for htmx.
pub trait IntoHxResponse {
    fn into_hx_response(self) -> HxResponse;
}

/// The markup of one notice: a `span` that replaces the content of the
/// element `id` with `notice`. Neither text is escaped.
pub open spec fn notice_markup(id: Seq<char>, notice: Seq<char>) -> Seq<char> {
    "<span id=\""@ + id + "\" hx-swap-oob=\"innerHTML\">"@ + notice + "</span>"@
}

impl View for HxRedirect {
    type V = Seq<char>;

    closed spec fn view(&self) -> Seq<char> {
        self.location@
    }
}

impl View for HxNotices {
    type V = Seq<char>;

    closed spec fn view(&self) -> Seq<char> {
        self.body@
    }
}

impl HxRedirect {
    /// A redirect to `path`.
    pub fn to(path: &str) -> (redirect: HxRedirect)
        ensures
            redirect@ == path@,
    {
        HxRedirect { location: path.to_owned() }
    }

    /// Where the redirect leads: the value of the `hx-location` header.
    pub fn location(&self) -> (location: &str)
        ensures
            location@ == self@,
    {
        self.location.as_str()
    }
}

impl HxNotices {
    /// No notice yet.
    pub fn new() -> (notices: HxNotices)
        ensures
            notices@ == Seq::<char>::empty(),
    {
        HxNotices { body: String::new() }
    }

    /// These notices followed by one more, which puts `notice` into the
    /// element `id`.
    pub fn add(self, id: &str, notice: &str) -> (notices: HxNotices)
        ensures
            notices@ == self@ + notice_markup(id@, notice@),
    {
        let mut body = self.body;
        let ghost before = body@;
        body.append("<span id=\"");
        body.append(id);
        body.append("\" hx-swap-oob=\"innerHTML\">");
        body.append(notice);
        body.append("</span>");
        assert(body@ =~= before + notice_markup(id@, notice@));
        HxNotices { body }
    }

    /// The markup of all notices, in the order in which they were added.
    pub fn body(&self) -> (body: &str)
        ensures
            body@ == self@,
    {
        self.body.as_str()
    }
}

impl IntoHxResponse for HxResponse {
    fn into_hx_response(self) -> (response: HxResponse)
        ensures
            response == self,
    {
        self
    }
}

impl IntoHxResponse for HxRedirect {
    fn into_hx_response(self) -> (response: HxResponse)
        ensures
            response == HxResponse::Redirect(self),
    {
        HxResponse::Redirect(self)
    }
}

impl IntoHxResponse for HxNotices {
    fn into_hx_response(self) -> (response: HxResponse)
        ensures
            response == HxResponse::Notices(self),
    {
        HxResponse::Notices(self)
    }
}

impl HxResponse {
    /// The value of the `hx-location` header of the answer: set for a
    /// redirect only.
    pub fn hx_location(&self) -> (location: Option<&str>)
        ensures
            match *self {
                HxResponse::Redirect(redirect) => location matches Some(text) && text@ == redirect@,
                HxResponse::Notices(_) => location is None,
            },
    {
        match self {
            HxResponse::Redirect(redirect) => Some(redirect.location()),
            HxResponse::Notices(_) => None,
        }
    }

    /// The HTML body of the answer: the notices' markup, and nothing for a
    /// redirect.
    pub fn html(&self) -> (html: Option<&str>)
        ensures
            match *self {
                HxResponse::Redirect(_) => html is None,
                HxResponse::Notices(notices) => html matches Some(text) && text@ == notices@,
            },
    {
        match self {
            HxResponse::Redirect(_) => None,
            HxResponse::Notices(notices) => Some(notices.body()),
        }
    }
}

} // verus!
