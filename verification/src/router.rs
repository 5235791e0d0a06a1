//! The routing table: which handler a method and a path select.
//!
//! Paths are matched exactly, without a trailing slash, and the first rule
//! that matches wins:
//!
//! | method and path                 | route                |
//! |---------------------------------|----------------------|
//! | any method but `GET`            | [`Route::MethodNotAllowed`] |
//! | `GET /health`                   | [`Route::Health`]    |
//! | `GET /version`                  | [`Route::Version`]   |
//! | `GET /metrics`                  | [`Route::Metrics`]   |
//! | `GET /api/topic/{urlName}`      | [`Route::Topic`]     |
//! | `GET /api/user/{shortName}`     | [`Route::User`]      |
//! | `GET /api/search/{kind}/{query}`| [`Route::Search`]    |
//! | any other `GET`                 | [`Route::Assets`]    |
//!
//! A parameter in braces stands for one path segment: at least one
//! character, none of them a slash. It is handed on as it came, still
//! percent-encoded.

use vstd::prelude::*;
use crate::text::{
    chars_of, find_slash, first_slash, has_prefix, is_segment, lemma_first_slash, same_text,
    starts_with,
};

verus! {

/// The handler that a request selects.
#[derive(Debug, Clone)]
pub enum Route {
    /// The health check.
    Health,
    /// The build version.
    Version,
    /// The metrics scrape.
    Metrics,
    /// A topic, looked up by its URL name.
    Topic { url_name: String },
    /// A user, looked up by short name.
    User { short_name: String },
    /// A search; both parameters are as they stood in the path.
    Search { kind: String, query: String },
    /// None of the above: a static file, the front end's entry document, or
    /// nothing.
    Assets,
    /// The method is not `GET`.
    MethodNotAllowed,
}

/// Mathematical value of a [`Route`].
pub enum RouteModel {
    Health,
    Version,
    Metrics,
    Topic { url_name: Seq<char> },
    User { short_name: Seq<char> },
    Search { kind: Seq<char>, query: Seq<char> },
    Assets,
    MethodNotAllowed,
}

impl View for Route {
    type V = RouteModel;

    open spec fn view(&self) -> RouteModel {
        match self {
            Route::Health => RouteModel::Health,
            Route::Version => RouteModel::Version,
            Route::Metrics => RouteModel::Metrics,
            Route::Topic { url_name } => RouteModel::Topic { url_name: url_name@ },
            Route::User { short_name } => RouteModel::User { short_name: short_name@ },
            Route::Search { kind, query } => RouteModel::Search { kind: kind@, query: query@ },
            Route::Assets => RouteModel::Assets,
            Route::MethodNotAllowed => RouteModel::MethodNotAllowed,
        }
    }
}

/// What follows `prefix` in `path`.
pub open spec fn after(path: Seq<char>, prefix: Seq<char>) -> Seq<char> {
    path.skip(prefix.len() as int)
}

/// The search kind in what follows `/api/search/`: all that stands before
/// the first slash.
pub open spec fn search_kind_part(rest: Seq<char>) -> Seq<char> {
    rest.take(first_slash(rest))
}

/// The search query in what follows `/api/search/`: all that stands after
/// the first slash.
pub open spec fn search_query_part(rest: Seq<char>) -> Seq<char> {
    rest.skip(first_slash(rest) + 1)
}

/// Whether `rest` is two segments with one slash between them.
pub open spec fn is_segment_pair(rest: Seq<char>) -> bool {
    &&& first_slash(rest) < rest.len()
    &&& is_segment(search_kind_part(rest))
    &&& is_segment(search_query_part(rest))
}

/// The routing table.
pub open spec fn route_of(method: Seq<char>, path: Seq<char>) -> RouteModel {
    if method != "GET"@ {
        RouteModel::MethodNotAllowed
    } else if path == "/health"@ {
        RouteModel::Health
    } else if path == "/version"@ {
        RouteModel::Version
    } else if path == "/metrics"@ {
        RouteModel::Metrics
    } else if has_prefix(path, "/api/topic/"@) && is_segment(after(path, "/api/topic/"@)) {
        RouteModel::Topic { url_name: after(path, "/api/topic/"@) }
    } else if has_prefix(path, "/api/user/"@) && is_segment(after(path, "/api/user/"@)) {
        RouteModel::User { short_name: after(path, "/api/user/"@) }
    } else if has_prefix(path, "/api/search/"@) && is_segment_pair(after(path, "/api/search/"@)) {
        RouteModel::Search {
            kind: search_kind_part(after(path, "/api/search/"@)),
            query: search_query_part(after(path, "/api/search/"@)),
        }
    } else {
        RouteModel::Assets
    }
}

/// Whether the front end owns `path`: its first segment is `topic` or
/// `search`, whatever follows.
pub open spec fn is_front_end_path(path: Seq<char>) -> bool {
    ||| path == "/topic"@
    ||| has_prefix(path, "/topic/"@)
    ||| path == "/search"@
    ||| has_prefix(path, "/search/"@)
}

/// The one segment that follows `prefix` in `path`, if `path` is `prefix`
/// and one segment.
fn segment_after(path: &str, chars: &Vec<char>, prefix: &str) -> (segment: Option<String>)
    requires
        chars@ == path@,
    ensures
        has_prefix(path@, prefix@) && is_segment(after(path@, prefix@)) ==> segment is Some
            && segment->0@ == after(path@, prefix@),
        !(has_prefix(path@, prefix@) && is_segment(after(path@, prefix@))) ==> segment is None,
{
    let prefix_chars = chars_of(prefix);
    if !starts_with(chars, &prefix_chars) {
        return None;
    }
    let from = prefix_chars.len();
    let end = find_slash(chars, from);
    if from < chars.len() && end == chars.len() {
        let segment = path.substring_char(from, chars.len()).to_owned();
        Some(segment)
    } else {
        None
    }
}

/// The two segments that follow `prefix` in `path`, if `path` is `prefix`,
/// a segment, a slash and a segment.
fn segment_pair_after(path: &str, chars: &Vec<char>, prefix: &str) -> (pair: Option<
    (String, String),
>)
    requires
        chars@ == path@,
    ensures
        has_prefix(path@, prefix@) && is_segment_pair(after(path@, prefix@)) ==> (pair matches Some(
            (kind, query),
        ) && kind@ == search_kind_part(after(path@, prefix@)) && query@ == search_query_part(
            after(path@, prefix@),
        )),
        !(has_prefix(path@, prefix@) && is_segment_pair(after(path@, prefix@))) ==> pair is None,
{
    let prefix_chars = chars_of(prefix);
    if !starts_with(chars, &prefix_chars) {
        return None;
    }
    let from = prefix_chars.len();
    let ghost rest = after(path@, prefix@);
    let slash = find_slash(chars, from);
    if from < slash && slash < chars.len() {
        let second = find_slash(chars, slash + 1);
        assert(chars@.skip(slash + 1) =~= search_query_part(rest));
        if slash + 1 < chars.len() && second == chars.len() {
            let kind = path.substring_char(from, slash).to_owned();
            let query = path.substring_char(slash + 1, chars.len()).to_owned();
            proof {
                lemma_first_slash(rest);
            }
            Some((kind, query))
        } else {
            None
        }
    } else {
        None
    }
}

/// Selects the handler for a request, by the routing table.
pub fn route(method: &str, path: &str) -> (r: Route)
    ensures
        r@ == route_of(method@, path@),
{
    let method_chars = chars_of(method);
    if !same_text(&method_chars, "GET") {
        return Route::MethodNotAllowed;
    }
    let chars = chars_of(path);
    if same_text(&chars, "/health") {
        return Route::Health;
    }
    if same_text(&chars, "/version") {
        return Route::Version;
    }
    if same_text(&chars, "/metrics") {
        return Route::Metrics;
    }
    if let Some(url_name) = segment_after(path, &chars, "/api/topic/") {
        return Route::Topic { url_name };
    }
    if let Some(short_name) = segment_after(path, &chars, "/api/user/") {
        return Route::User { short_name };
    }
    if let Some((kind, query)) = segment_pair_after(path, &chars, "/api/search/") {
        return Route::Search { kind, query };
    }
    Route::Assets
}

/// Whether the front end owns `path`, so that its entry document is served
/// where no static file answers.
pub fn front_end_path(path: &str) -> (owned: bool)
    ensures
        owned == is_front_end_path(path@),
{
    let chars = chars_of(path);
    same_text(&chars, "/topic") || starts_with(&chars, &chars_of("/topic/")) || same_text(
        &chars,
        "/search",
    ) || starts_with(&chars, &chars_of("/search/"))
}

} // verus!
