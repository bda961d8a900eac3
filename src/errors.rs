use vstd::prelude::*;

verus! {

/// Who is at fault for a failed generation step. The serving layer picks an
/// HTTP status class from it: 4xx for the client, 5xx for the server.
#[derive(Clone, Copy, Debug, PartialEq, Eq, Structural)]
pub enum ErrorCause {
    /// The request was bad, optionally with a suggested status code.
    Client(Option<u16>),
    /// The server failed, optionally with a suggested status code.
    Server(Option<u16>),
}

/// The status code that a failure with this cause is answered with.
pub open spec fn cause_status(cause: ErrorCause) -> u16 {
    match cause {
        ErrorCause::Client(Some(code)) => code,
        ErrorCause::Client(None) => 400,
        ErrorCause::Server(Some(code)) => code,
        ErrorCause::Server(None) => 500,
    }
}

impl ErrorCause {
    /// The HTTP status code for a failure of this cause: the suggested one if
    /// any, else 400 for the client and 500 for the server.
    pub fn status_code(&self) -> (r: u16)
        ensures
            r == cause_status(*self),
    {
        match self {
            ErrorCause::Client(Some(code)) => *code,
            ErrorCause::Client(None) => 400,
            ErrorCause::Server(Some(code)) => *code,
            ErrorCause::Server(None) => 500,
        }
    }

    /// Whether the client is at fault.
    pub fn is_client(&self) -> (r: bool)
        ensures
            r == (*self matches ErrorCause::Client(_)),
    {
        match self {
            ErrorCause::Client(_) => true,
            ErrorCause::Server(_) => false,
        }
    }
}

/// The failures of the strategy engine.
#[derive(Debug, PartialEq, Eq)]
pub enum ErrorKind {
    /// A strategy was invoked on a route that does not configure it: the
    /// route's path and the feature's name.
    TemplateFeatureNotEnabled(String, String),
    /// A configured strategy function failed: the stage, the route's path,
    /// the cause that the function declared and its message.
    RenderFnFailed(String, String, ErrorCause, String),
    /// Build and request state were both present where a single one was needed.
    BothStatesDefined,
    /// A route's revalidation interval could not be read.
    InvalidRevalidationInterval(String, String),
}

/// `e` is `TemplateFeatureNotEnabled` for the route `path` and the feature `feature`.
pub open spec fn is_not_enabled(e: ErrorKind, path: Seq<char>, feature: Seq<char>) -> bool {
    match e {
        ErrorKind::TemplateFeatureNotEnabled(p, f) => p@ == path && f@ == feature,
        _ => false,
    }
}

/// `e` is `RenderFnFailed` for the stage `stage` of the route `path`, with the
/// cause and message that the strategy function gave.
pub open spec fn is_render_failure(
    e: ErrorKind,
    stage: Seq<char>,
    path: Seq<char>,
    cause: ErrorCause,
    msg: Seq<char>,
) -> bool {
    match e {
        ErrorKind::RenderFnFailed(s, p, c, m) => s@ == stage && p@ == path && c == cause && m@
            == msg,
        _ => false,
    }
}

} // verus!
