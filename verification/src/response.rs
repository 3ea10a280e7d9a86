//! Replies, as plain values that a server turns into HTTP responses.

use vstd::prelude::*;

verus! {

/// Status of a reply that carries what was asked for.
pub const STATUS_OK: u16 = 200;

/// Status of a permanent redirect.
pub const STATUS_MOVED_PERMANENTLY: u16 = 301;

/// Status of a reply to an unknown short code.
pub const STATUS_NOT_FOUND: u16 = 404;

/// Status of a reply to a request that took too long.
pub const STATUS_REQUEST_TIMEOUT: u16 = 408;

/// Status of a reply to an unexpected failure.
pub const STATUS_INTERNAL_SERVER_ERROR: u16 = 500;

/// Status of a reply to a request that was turned away under load.
pub const STATUS_SERVICE_UNAVAILABLE: u16 = 503;

/// What a reply carries after its headers.
#[derive(Debug, Clone, PartialEq, Eq)]
pub enum Body {
    /// Nothing.
    Empty,
    /// A JSON document, as the text to send.
    Json(String),
    /// Plain text.
    Text(String),
}

/// A reply: the status code, the target of a redirect where the reply is one,
/// and the body.
#[derive(Debug, Clone, PartialEq, Eq)]
pub struct Response {
    pub status: u16,
    pub location: Option<String>,
    pub body: Body,
}

/// A body with its text as a sequence of characters.
pub enum BodyView {
    Empty,
    Json(Seq<char>),
    Text(Seq<char>),
}

/// A reply with its texts as sequences of characters.
pub struct ResponseView {
    pub status: u16,
    pub location: Option<Seq<char>>,
    pub body: BodyView,
}

impl View for Body {
    type V = BodyView;

    open spec fn view(&self) -> BodyView {
        match self {
            Body::Empty => BodyView::Empty,
            Body::Json(text) => BodyView::Json(text@),
            Body::Text(text) => BodyView::Text(text@),
        }
    }
}

impl View for Response {
    type V = ResponseView;

    open spec fn view(&self) -> ResponseView {
        ResponseView {
            status: self.status,
            location: match self.location {
                Some(target) => Some(target@),
                None => None,
            },
            body: self.body@,
        }
    }
}

} // verus!
