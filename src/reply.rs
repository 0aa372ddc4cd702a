//! What a handler answers, independent of any HTTP framework.
use vstd::prelude::*;

verus! {

/// Status code of a successful reply.
pub const STATUS_OK: u16 = 200;

/// Status code of a missing resource or an unconfigured value.
pub const STATUS_NOT_FOUND: u16 = 404;

/// Status code of a request whose method no route accepts.
pub const STATUS_METHOD_NOT_ALLOWED: u16 = 405;

/// Status code of a reply that reports a server-side failure.
pub const STATUS_INTERNAL_ERROR: u16 = 500;

/// The reply to one request.
#[derive(Debug, PartialEq, Eq)]
pub enum Reply {
    /// A `text/plain; charset=utf-8` body with the given status code.
    Text { status: u16, body: String },
    /// The contents of the file at `path`, streamed with status 200.
    File { path: String },
    /// The styled not-found page, served with status 404.
    NotFoundPage,
    /// An empty reply with status 405.
    MethodNotAllowed,
}

/// The mathematical value of a [`Reply`].
pub enum ReplyView {
    Text { status: u16, body: Seq<char> },
    File { path: Seq<char> },
    NotFoundPage,
    MethodNotAllowed,
}

impl View for Reply {
    type V = ReplyView;

    open spec fn view(&self) -> ReplyView {
        match self {
            Reply::Text { status, body } => ReplyView::Text { status: *status, body: body@ },
            Reply::File { path } => ReplyView::File { path: path@ },
            Reply::NotFoundPage => ReplyView::NotFoundPage,
            Reply::MethodNotAllowed => ReplyView::MethodNotAllowed,
        }
    }
}

/// A plain-text reply with status `status` and body `body`.
pub open spec fn text_view(status: u16, body: Seq<char>) -> ReplyView {
    ReplyView::Text { status, body }
}

/// The status code that a reply is sent with.
pub open spec fn status_of(r: ReplyView) -> u16 {
    match r {
        ReplyView::Text { status, .. } => status,
        ReplyView::File { .. } => STATUS_OK,
        ReplyView::NotFoundPage => STATUS_NOT_FOUND,
        ReplyView::MethodNotAllowed => STATUS_METHOD_NOT_ALLOWED,
    }
}

impl Reply {
    /// A plain-text reply holding a copy of `body`.
    pub fn text(status: u16, body: &str) -> (r: Reply)
        ensures
            r@ == text_view(status, body@),
    {
        Reply::Text { status, body: body.to_owned() }
    }

    /// The status code that this reply is sent with.
    pub fn status(&self) -> (r: u16)
        ensures
            r == status_of(self@),
    {
        match self {
            Reply::Text { status, .. } => *status,
            Reply::File { .. } => STATUS_OK,
            Reply::NotFoundPage => STATUS_NOT_FOUND,
            Reply::MethodNotAllowed => STATUS_METHOD_NOT_ALLOWED,
        }
    }
}

/// The styled not-found page.
pub fn resource_404() -> (r: Reply)
    ensures
        r@ == ReplyView::NotFoundPage,
{
    Reply::NotFoundPage
}

/// Where the favicon is served from.
pub open spec fn favicon_path() -> Seq<char> {
    "static/favicon.ico"@
}

/// The favicon, served from its fixed file.
pub fn favicon() -> (r: Reply)
    ensures
        r@ == (ReplyView::File { path: favicon_path() }),
{
    Reply::File { path: "static/favicon.ico".to_owned() }
}

} // verus!
