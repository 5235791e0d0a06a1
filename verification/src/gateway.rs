//! The calls the gateway makes upstream, as plain values.
//!
//! A handler never talks to the upstream itself. It says which call it wants
//! made; whoever holds the authenticated client makes it and hands back the
//! result. Each call is one round trip with the client's defaults for all
//! that is not listed here.

use vstd::prelude::*;
use crate::error::{ClientRequestError, Operation};

verus! {

/// The language every search is made in.
pub const SEARCH_LANGUAGE: &'static str = "fr";

/// The kinds of object a search can look for.
#[derive(Debug, Clone, Copy, PartialEq, Eq, Structural)]
pub enum SearchKind {
    User,
    Topic,
    Post,
}

/// A call to make upstream.
#[derive(Debug, Clone)]
pub enum UpstreamCall {
    /// Fetch the topic with this URL name.
    FetchTopic { url_name: String },
    /// Fetch the user with this short name.
    FetchUser { short_name: String },
    /// Search for objects of one kind, with a decoded query.
    Search { kind: SearchKind, query: String, lang: String },
}

/// Mathematical value of an [`UpstreamCall`].
pub enum UpstreamCallModel {
    FetchTopic { url_name: Seq<char> },
    FetchUser { short_name: Seq<char> },
    Search { kind: SearchKind, query: Seq<char>, lang: Seq<char> },
}

impl View for UpstreamCall {
    type V = UpstreamCallModel;

    open spec fn view(&self) -> UpstreamCallModel {
        match self {
            UpstreamCall::FetchTopic { url_name } => UpstreamCallModel::FetchTopic {
                url_name: url_name@,
            },
            UpstreamCall::FetchUser { short_name } => UpstreamCallModel::FetchUser {
                short_name: short_name@,
            },
            UpstreamCall::Search { kind, query, lang } => UpstreamCallModel::Search {
                kind: *kind,
                query: query@,
                lang: lang@,
            },
        }
    }
}

impl UpstreamCall {
    /// Which of the three operations this call is.
    pub open spec fn spec_operation(&self) -> Operation {
        match self {
            UpstreamCall::FetchTopic { .. } => Operation::FetchTopic,
            UpstreamCall::FetchUser { .. } => Operation::FetchUser,
            UpstreamCall::Search { .. } => Operation::Search,
        }
    }

    /// Which of the three operations this call is, for the record of a
    /// failure.
    #[verifier::when_used_as_spec(spec_operation)]
    pub fn operation(&self) -> (op: Operation)
        ensures
            op == self.spec_operation(),
    {
        match self {
            UpstreamCall::FetchTopic { .. } => Operation::FetchTopic,
            UpstreamCall::FetchUser { .. } => Operation::FetchUser,
            UpstreamCall::Search { .. } => Operation::Search,
        }
    }
}

/// The search kind that a path segment names, if any: `user`, `topic` and
/// `post` are the names the upstream knows.
pub open spec fn search_kind_of(name: Seq<char>) -> Option<SearchKind> {
    if name == "user"@ {
        Some(SearchKind::User)
    } else if name == "topic"@ {
        Some(SearchKind::Topic)
    } else if name == "post"@ {
        Some(SearchKind::Post)
    } else {
        None
    }
}

/// What a percent-encoded text decodes to, or `None` where the decoded bytes
/// are not UTF-8.
pub uninterp spec fn percent_decoded(encoded: Seq<char>) -> Option<Seq<char>>;

/// `str::parse` into `scoopit_api::SearchRequestType`, whose `from_str`
/// accepts exactly `user`, `topic` and `post` and maps each to the variant
/// of that name.
#[verifier::external_body]
fn parse_search_kind(name: &str) -> (kind: Option<SearchKind>)
    ensures
        kind == search_kind_of(name@),
{
    match name.parse::<scoopit_api::SearchRequestType>() {
        Ok(scoopit_api::SearchRequestType::User) => Some(SearchKind::User),
        Ok(scoopit_api::SearchRequestType::Topic) => Some(SearchKind::Topic),
        Ok(scoopit_api::SearchRequestType::Post) => Some(SearchKind::Post),
        Err(_) => None,
    }
}

/// `urlencoding::decode`: the text with every `%` and two hex digits
/// replaced by the byte they spell, if those bytes are UTF-8. The result is
/// a function of the text alone.
#[verifier::external_body]
fn percent_decode(encoded: &str) -> (decoded: Option<String>)
    ensures
        decoded.deep_view() == percent_decoded(encoded@),
{
    match urlencoding::decode(encoded) {
        Ok(text) => Some(text.into_owned()),
        Err(_) => None,
    }
}

/// The outcome of preparing a call, with the call taken by its value.
pub open spec fn call_model(prepared: Result<UpstreamCall, ClientRequestError>) -> Result<
    UpstreamCallModel,
    ClientRequestError,
> {
    match prepared {
        Ok(call) => Ok(call@),
        Err(e) => Err(e),
    }
}

/// The search to make for a parsed kind and a decoded query. An unknown
/// kind is reported first, then a query that did not decode; otherwise the
/// search is for that kind and that query, in the fixed language.
pub open spec fn search_call_of(kind: Option<SearchKind>, query: Option<Seq<char>>) -> Result<
    UpstreamCallModel,
    ClientRequestError,
> {
    match kind {
        None => Err(ClientRequestError::UnknownSearchKind),
        Some(kind) => match query {
            None => Err(ClientRequestError::UndecodableQuery),
            Some(query) => Ok(
                UpstreamCallModel::Search { kind, query, lang: SEARCH_LANGUAGE@ },
            ),
        },
    }
}

/// The call that fetches a topic.
pub fn topic_call(url_name: String) -> (call: UpstreamCall)
    ensures
        call@ == (UpstreamCallModel::FetchTopic { url_name: url_name@ }),
{
    UpstreamCall::FetchTopic { url_name }
}

/// The call that fetches a user.
pub fn user_call(short_name: String) -> (call: UpstreamCall)
    ensures
        call@ == (UpstreamCallModel::FetchUser { short_name: short_name@ }),
{
    UpstreamCall::FetchUser { short_name }
}

/// The search to make, given what the kind parsed to and what the query
/// decoded to.
pub fn search_call(kind: Option<SearchKind>, query: Option<String>) -> (prepared: Result<
    UpstreamCall,
    ClientRequestError,
>)
    ensures
        call_model(prepared) == search_call_of(kind, query.deep_view()),
{
    match kind {
        None => Err(ClientRequestError::UnknownSearchKind),
        Some(kind) => match query {
            None => Err(ClientRequestError::UndecodableQuery),
            Some(query) => Ok(
                UpstreamCall::Search { kind, query, lang: SEARCH_LANGUAGE.to_owned() },
            ),
        },
    }
}

/// The search to make for the two parameters of a search path: the kind is
/// parsed, the query percent-decoded, and both must succeed before anything
/// is asked of the upstream.
pub fn plan_search(kind: &str, query: &str) -> (prepared: Result<UpstreamCall, ClientRequestError>)
    ensures
        call_model(prepared) == search_call_of(search_kind_of(kind@), percent_decoded(query@)),
{
    search_call(parse_search_kind(kind), percent_decode(query))
}

} // verus!
