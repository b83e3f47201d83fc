//! The failures of the service, and what each of them leads to.

use crate::config::ConfigError;
use crate::response::{
    Body, BodyView, ContentType, Response, ResponseView, BAD_GATEWAY, INTERNAL_SERVER_ERROR,
};
use vstd::prelude::*;

verus! {

/// A failure before the first request is served. It ends the process.
#[derive(Clone, Copy, Debug, PartialEq, Eq, Structural)]
pub enum StartupError {
    /// The tracer could not be set up.
    Tracer,
    /// The connection pool could not reach the database.
    Pool,
    /// The port could not be bound.
    Bind,
    /// A required setting is missing.
    Config(ConfigError),
}

/// A failure while one request is served. It ends that request only.
#[derive(Clone, Copy, Debug, PartialEq, Eq, Structural)]
pub enum RequestError {
    /// The call to the IP-echo service failed, or its answer had no origin.
    Upstream,
    /// The database could not be reached or refused the query.
    Database,
}

/// The exit code of the process: 0 after a clean shutdown, 1 where it never
/// came to serve.
pub fn exit_code(run: Result<(), StartupError>) -> (code: u8)
    ensures
        code == if run is Ok { 0u8 } else { 1u8 },
{
    match run {
        Ok(()) => 0,
        Err(_) => 1,
    }
}

/// The body that tells the caller of a failed request: a JSON object with the
/// status and a brief message, and nothing of the cause.
pub open spec fn error_text(error: RequestError) -> Seq<char> {
    match error {
        RequestError::Upstream => "{\"status\":502,\"message\":\"Bad Gateway\"}"@,
        RequestError::Database => "{\"status\":500,\"message\":\"Internal Server Error\"}"@,
    }
}

/// The status that a failed request is answered with.
pub open spec fn error_status(error: RequestError) -> u16 {
    match error {
        RequestError::Upstream => BAD_GATEWAY,
        RequestError::Database => INTERNAL_SERVER_ERROR,
    }
}

/// The response for a request that failed.
pub open spec fn error_reply(error: RequestError) -> ResponseView {
    ResponseView {
        status: error_status(error),
        content_type: Some(ContentType::Json),
        x_app: None,
        body: BodyView::Text(error_text(error)),
    }
}

/// The response for a request that failed: its status, and a body that
/// names the status and says in a few words what it means. What went wrong
/// inside is not told.
pub fn error_response(error: RequestError) -> (reply: Response)
    ensures
        reply@ == error_reply(error),
{
    let (status, text) = match error {
        RequestError::Upstream => (BAD_GATEWAY, "{\"status\":502,\"message\":\"Bad Gateway\"}"),
        RequestError::Database => (
            INTERNAL_SERVER_ERROR,
            "{\"status\":500,\"message\":\"Internal Server Error\"}",
        ),
    };
    Response {
        status,
        content_type: Some(ContentType::Json),
        x_app: None,
        body: Body::Text(text.to_owned()),
    }
}

} // verus!
