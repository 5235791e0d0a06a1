//! Replies, and the one place where the outcome of a handler becomes one.

use vstd::prelude::*;
use crate::error::{HandlerError, UpstreamError, STATUS_OK};
use crate::output::{
    SearchJson, SearchJsonOutput, TopicJson, TopicJsonOutput, UserJson, UserJsonOutput,
};

verus! {

/// Name under which the service announces itself.
pub const SERVICE_NAME: &'static str = "scoopit-api-demo";

/// What a reply carries.
#[derive(Debug, Clone)]
pub enum Body {
    /// Nothing.
    Empty,
    /// Plain text.
    Text(String),
    /// A topic, to be sent as JSON.
    Topic(TopicJsonOutput),
    /// A user, to be sent as JSON.
    User(UserJsonOutput),
    /// Search results, to be sent as JSON.
    Search(SearchJsonOutput),
}

/// Mathematical value of a [`Body`].
pub enum BodyModel {
    Empty,
    Text(Seq<char>),
    Topic(TopicJson),
    User(UserJson),
    Search(SearchJson),
}

impl View for Body {
    type V = BodyModel;

    open spec fn view(&self) -> BodyModel {
        match self {
            Body::Empty => BodyModel::Empty,
            Body::Text(text) => BodyModel::Text(text@),
            Body::Topic(topic) => BodyModel::Topic(topic@),
            Body::User(user) => BodyModel::User(user@),
            Body::Search(results) => BodyModel::Search(results@),
        }
    }
}

/// A reply: its status, the value of its `Server` header, and its body.
#[derive(Debug, Clone)]
pub struct Response {
    pub status: u16,
    pub server: String,
    pub body: Body,
}

/// Mathematical value of a [`Response`].
pub struct ResponseModel {
    pub status: u16,
    pub server: Seq<char>,
    pub body: BodyModel,
}

impl View for Response {
    type V = ResponseModel;

    open spec fn view(&self) -> ResponseModel {
        ResponseModel { status: self.status, server: self.server@, body: self.body@ }
    }
}

/// The value of the `Server` header: the service's name, a space, and the
/// version.
pub open spec fn server_header_of(version: Seq<char>) -> Seq<char> {
    SERVICE_NAME@ + " "@ + version
}

/// The value of the `Server` header that every reply carries.
pub fn server_header(version: &str) -> (header: String)
    ensures
        header@ == server_header_of(version@),
{
    let mut header = SERVICE_NAME.to_owned();
    header.append(" ");
    header.append(version);
    header
}

/// The outcome of a handler, success or failure, with the body taken by its
/// value.
pub open spec fn outcome_model(outcome: Result<Body, HandlerError>) -> Result<
    BodyModel,
    HandlerError,
> {
    match outcome {
        Ok(body) => Ok(body@),
        Err(e) => Err(e),
    }
}

/// The body that tells of an error: its fixed message, or nothing where the
/// message is empty.
pub open spec fn error_body_of(e: HandlerError) -> BodyModel {
    if e.spec_message().len() == 0 {
        BodyModel::Empty
    } else {
        BodyModel::Text(e.spec_message())
    }
}

/// The reply for the outcome of a handler. Success is 200 with the body
/// as it is; an error is its status and its fixed message. Either way the
/// `Server` header is set.
pub open spec fn reply_of(outcome: Result<BodyModel, HandlerError>, version: Seq<char>) -> ResponseModel {
    match outcome {
        Ok(body) => ResponseModel { status: STATUS_OK, server: server_header_of(version), body },
        Err(e) => ResponseModel {
            status: e.spec_status(),
            server: server_header_of(version),
            body: error_body_of(e),
        },
    }
}

/// Turns the outcome of a handler into a reply. No error passes through
/// as it came, and none shows its cause.
pub fn handle_errors(outcome: Result<Body, HandlerError>, version: &str) -> (reply: Response)
    ensures
        reply@ == reply_of(outcome_model(outcome), version@),
{
    let server = server_header(version);
    match outcome {
        Ok(body) => Response { status: STATUS_OK, server, body },
        Err(e) => {
            let message = e.message();
            let body = if message.unicode_len() == 0 {
                Body::Empty
            } else {
                Body::Text(message.to_owned())
            };
            Response { status: e.status(), server, body }
        },
    }
}

/// Every reply carries the `Server` header with the service's name and the
/// version, whether the handler succeeded or failed.
pub proof fn lemma_reply_has_server_header(
    outcome: Result<BodyModel, HandlerError>,
    version: Seq<char>,
)
    ensures
        reply_of(outcome, version).server == server_header_of(version),
{
}

/// A reply is 200 exactly when the handler succeeded.
pub proof fn lemma_reply_status(outcome: Result<BodyModel, HandlerError>, version: Seq<char>)
    ensures
        reply_of(outcome, version).status == STATUS_OK <==> outcome is Ok,
{
}

/// An error reply tells the client one of a fixed few messages or nothing,
/// and two upstream failures are answered alike whatever their cause: the
/// cause never reaches the client.
pub proof fn lemma_error_reply_hides_cause(
    e: HandlerError,
    first: UpstreamError,
    second: UpstreamError,
    version: Seq<char>,
)
    ensures
        reply_of(Err(e), version).body == BodyModel::Empty || reply_of(Err(e), version).body
            == BodyModel::Text("Bad Request"@) || reply_of(Err(e), version).body
            == BodyModel::Text("Bad Gateway"@) || reply_of(Err(e), version).body
            == BodyModel::Text("Method Not Allowed"@),
        reply_of(Err(HandlerError::Upstream(first)), version) == reply_of(
            Err(HandlerError::Upstream(second)),
            version,
        ),
{
    reveal_strlit("");
}

} // verus!
