//! What a handler hands back: status, headers and body of the response.

use crate::query::Bookings;
use vstd::prelude::*;

verus! {

/// Status of a request that was served.
pub const OK: u16 = 200;

/// Status of a request whose method the path does not take.
pub const METHOD_NOT_ALLOWED: u16 = 405;

/// Status of a request that failed inside the service.
pub const INTERNAL_SERVER_ERROR: u16 = 500;

/// Status of a request that failed in the service it was passed on to.
pub const BAD_GATEWAY: u16 = 502;

/// The name of the header that tells which build answers.
pub const X_APP: &'static str = "X-App";

/// The media type of a body.
#[derive(Clone, Copy, Debug, PartialEq, Eq, Structural)]
pub enum ContentType {
    Html,
    Json,
    Plain,
}

impl ContentType {
    /// The value of the `content-type` header.
    pub open spec fn text(self) -> Seq<char> {
        match self {
            ContentType::Html => "text/html; charset=utf-8"@,
            ContentType::Json => "application/json"@,
            ContentType::Plain => "text/plain; charset=utf-8"@,
        }
    }

    /// The value of the `content-type` header.
    pub fn header_value(self) -> (value: &'static str)
        ensures
            value@ == self.text(),
    {
        match self {
            ContentType::Html => "text/html; charset=utf-8",
            ContentType::Json => "application/json",
            ContentType::Plain => "text/plain; charset=utf-8",
        }
    }
}

/// The body of a response.
#[derive(Debug)]
pub enum Body {
    /// Text, sent as it is.
    Text(String),
    /// Booking records, sent as a JSON array in this order.
    Records(Vec<Bookings>),
}

/// A body as specifications see it.
pub enum BodyView {
    Text(Seq<char>),
    Records(Seq<Bookings>),
}

impl View for Body {
    type V = BodyView;

    open spec fn view(&self) -> BodyView {
        match self {
            Body::Text(text) => BodyView::Text(text@),
            Body::Records(records) => BodyView::Records(records@),
        }
    }
}

/// A response.
#[derive(Debug)]
pub struct Response {
    /// The HTTP status.
    pub status: u16,
    /// The `content-type` header, where the response has one.
    pub content_type: Option<ContentType>,
    /// The `X-App` header, where the response has one.
    pub x_app: Option<String>,
    /// The body.
    pub body: Body,
}

/// A response as specifications see it.
pub struct ResponseView {
    pub status: u16,
    pub content_type: Option<ContentType>,
    pub x_app: Option<Seq<char>>,
    pub body: BodyView,
}

impl View for Response {
    type V = ResponseView;

    open spec fn view(&self) -> ResponseView {
        ResponseView {
            status: self.status,
            content_type: self.content_type,
            x_app: match self.x_app {
                Some(value) => Some(value@),
                None => None,
            },
            body: self.body@,
        }
    }
}

/// The response that is nothing but a status and a line of plain text.
pub open spec fn plain(status: u16, message: Seq<char>) -> ResponseView {
    ResponseView {
        status,
        content_type: Some(ContentType::Plain),
        x_app: None,
        body: BodyView::Text(message),
    }
}

/// The answer to a request whose method the path does not take.
pub fn method_not_allowed() -> (reply: Response)
    ensures
        reply@ == plain(METHOD_NOT_ALLOWED, "HTTP method not allowed"@),
{
    Response {
        status: METHOD_NOT_ALLOWED,
        content_type: Some(ContentType::Plain),
        x_app: None,
        body: Body::Text("HTTP method not allowed".to_owned()),
    }
}

} // verus!
