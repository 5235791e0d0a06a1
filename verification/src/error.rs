//! What can go wrong while a request is handled, and what the client is
//! told about it.
//!
//! The client sees a status and a short fixed message, never the cause.

use vstd::prelude::*;
use crate::output::ProjectionError;

verus! {

/// The three things the gateway asks of the upstream API.
#[derive(Debug, Clone, Copy, PartialEq, Eq, Structural)]
pub enum Operation {
    FetchTopic,
    FetchUser,
    Search,
}

/// The upstream API could not be reached, refused, or sent something
/// unreadable. The cause is kept for the log only.
#[derive(Debug, Clone)]
pub struct UpstreamError {
    /// What was asked of the upstream.
    pub operation: Operation,
    /// What went wrong, in the upstream client's words.
    pub cause: String,
}

/// The request itself is at fault.
#[derive(Debug, Clone, Copy, PartialEq, Eq, Structural)]
pub enum ClientRequestError {
    /// The search kind is none that the upstream knows.
    UnknownSearchKind,
    /// The search query is not percent-encoded UTF-8.
    UndecodableQuery,
}

/// Any error a handler can end in.
#[derive(Debug, Clone)]
pub enum HandlerError {
    /// The request is malformed.
    ClientRequest(ClientRequestError),
    /// The upstream call failed.
    Upstream(UpstreamError),
    /// The upstream answered, but left out what a view requires.
    Projection(ProjectionError),
    /// Neither a route nor a static file matches.
    NotFound,
    /// The method is not one the gateway serves.
    MethodNotAllowed,
}

/// How loudly an error is written to the log.
#[derive(Debug, Clone, Copy, PartialEq, Eq, Structural)]
pub enum LogLevel {
    Debug,
    Warn,
}

/// Status of a successful reply.
pub const STATUS_OK: u16 = 200;

/// Status of a malformed request.
pub const STATUS_BAD_REQUEST: u16 = 400;

/// Status where nothing matches.
pub const STATUS_NOT_FOUND: u16 = 404;

/// Status of a request with a method that is not served.
pub const STATUS_METHOD_NOT_ALLOWED: u16 = 405;

/// Status of a failure on the upstream's side.
pub const STATUS_BAD_GATEWAY: u16 = 502;

impl HandlerError {
    /// The HTTP status that stands for this error. A projection failure
    /// counts as an upstream failure: the upstream broke its contract.
    pub open spec fn spec_status(&self) -> u16 {
        match self {
            HandlerError::ClientRequest(_) => STATUS_BAD_REQUEST,
            HandlerError::Upstream(_) => STATUS_BAD_GATEWAY,
            HandlerError::Projection(_) => STATUS_BAD_GATEWAY,
            HandlerError::NotFound => STATUS_NOT_FOUND,
            HandlerError::MethodNotAllowed => STATUS_METHOD_NOT_ALLOWED,
        }
    }

    /// The message sent to the client: one of a fixed few, empty where
    /// nothing was found.
    pub open spec fn spec_message(&self) -> Seq<char> {
        match self {
            HandlerError::ClientRequest(_) => "Bad Request"@,
            HandlerError::Upstream(_) => "Bad Gateway"@,
            HandlerError::Projection(_) => "Bad Gateway"@,
            HandlerError::NotFound => ""@,
            HandlerError::MethodNotAllowed => "Method Not Allowed"@,
        }
    }

    /// The level this error is logged at, if it is logged at all. A request
    /// at fault is worth a debug line; a failure on the upstream's side, a
    /// broken contract included, is worth a warning. A miss is told by the
    /// access log alone.
    pub open spec fn spec_log_level(&self) -> Option<LogLevel> {
        match self {
            HandlerError::ClientRequest(_) => Some(LogLevel::Debug),
            HandlerError::Upstream(_) => Some(LogLevel::Warn),
            HandlerError::Projection(_) => Some(LogLevel::Warn),
            HandlerError::NotFound => None,
            HandlerError::MethodNotAllowed => None,
        }
    }

    /// The HTTP status that stands for this error.
    #[verifier::when_used_as_spec(spec_status)]
    pub fn status(&self) -> (code: u16)
        ensures
            code == self.spec_status(),
    {
        match self {
            HandlerError::ClientRequest(_) => STATUS_BAD_REQUEST,
            HandlerError::Upstream(_) => STATUS_BAD_GATEWAY,
            HandlerError::Projection(_) => STATUS_BAD_GATEWAY,
            HandlerError::NotFound => STATUS_NOT_FOUND,
            HandlerError::MethodNotAllowed => STATUS_METHOD_NOT_ALLOWED,
        }
    }

    /// The level this error is logged at, if it is logged at all.
    #[verifier::when_used_as_spec(spec_log_level)]
    pub fn log_level(&self) -> (level: Option<LogLevel>)
        ensures
            level == self.spec_log_level(),
    {
        match self {
            HandlerError::ClientRequest(_) => Some(LogLevel::Debug),
            HandlerError::Upstream(_) => Some(LogLevel::Warn),
            HandlerError::Projection(_) => Some(LogLevel::Warn),
            HandlerError::NotFound => None,
            HandlerError::MethodNotAllowed => None,
        }
    }

    /// The message sent to the client.
    pub fn message(&self) -> (text: &'static str)
        ensures
            text@ == self.spec_message(),
    {
        match self {
            HandlerError::ClientRequest(_) => "Bad Request",
            HandlerError::Upstream(_) => "Bad Gateway",
            HandlerError::Projection(_) => "Bad Gateway",
            HandlerError::NotFound => "",
            HandlerError::MethodNotAllowed => "Method Not Allowed",
        }
    }
}

} // verus!
