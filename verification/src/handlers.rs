//! What to do with a routed request, before and after the upstream call.
//!
//! Handling a request takes two steps with a call between them. [`plan`]
//! says what the route asks for: a reply at once, the metrics, a call
//! upstream, or a file. Where it is a call, the caller makes it and hands
//! the result to [`get_topic`], [`get_user`] or [`search`]. The outcome of
//! either step becomes a reply in [`handle_errors`].

use vstd::prelude::*;
use crate::error::{
    HandlerError, UpstreamError, STATUS_BAD_GATEWAY, STATUS_BAD_REQUEST, STATUS_OK,
};
use crate::gateway::{
    percent_decoded, plan_search, search_call_of, search_kind_of, topic_call, user_call,
    UpstreamCall, UpstreamCallModel, SEARCH_LANGUAGE,
};
use crate::metrics::{metrics_body, MetricsError};
use crate::output::{
    project_search, project_topic, project_user, SearchJsonOutput, TopicJsonOutput,
    UserJsonOutput,
};
use crate::response::{
    handle_errors, outcome_model, reply_of, server_header_of, Body, BodyModel, Response,
    ResponseModel,
};
use crate::router::{front_end_path, is_front_end_path, route_of, Route, RouteModel};
use crate::upstream::{SearchResults, SearchResultsModel, Topic, TopicModel, User, UserModel};

verus! {

/// What a routed request asks for.
#[derive(Debug, Clone)]
pub enum Action {
    /// Send this reply; nothing else is needed.
    Reply(Response),
    /// Render the metrics and send them with [`metrics_reply`].
    RenderMetrics,
    /// Make this call, then hand its result to the handler of its kind.
    Upstream(UpstreamCall),
    /// Look for a static file; where there is none, see [`asset_fallback`].
    Assets,
}

/// Mathematical value of an [`Action`].
pub enum ActionModel {
    Reply(ResponseModel),
    RenderMetrics,
    Upstream(UpstreamCallModel),
    Assets,
}

impl View for Action {
    type V = ActionModel;

    open spec fn view(&self) -> ActionModel {
        match self {
            Action::Reply(reply) => ActionModel::Reply(reply@),
            Action::RenderMetrics => ActionModel::RenderMetrics,
            Action::Upstream(call) => ActionModel::Upstream(call@),
            Action::Assets => ActionModel::Assets,
        }
    }
}

/// What to do where no static file answers a path.
#[derive(Debug, Clone)]
pub enum AssetFallback {
    /// Serve the front end's entry document.
    Index,
    /// Send this reply.
    Reply(Response),
}

/// Mathematical value of an [`AssetFallback`].
pub enum AssetFallbackModel {
    Index,
    Reply(ResponseModel),
}

impl View for AssetFallback {
    type V = AssetFallbackModel;

    open spec fn view(&self) -> AssetFallbackModel {
        match self {
            AssetFallback::Index => AssetFallbackModel::Index,
            AssetFallback::Reply(reply) => AssetFallbackModel::Reply(reply@),
        }
    }
}

/// What a route asks for.
///
/// The health check and the version are answered at once and depend on
/// nothing but the request. A search is planned only once its kind has
/// parsed and its query has decoded; if either fails the reply is a 400 and
/// nothing is asked of the upstream.
pub open spec fn plan_of(route: RouteModel, version: Seq<char>) -> ActionModel {
    match route {
        RouteModel::Health => ActionModel::Reply(reply_of(Ok(BodyModel::Text("OK"@)), version)),
        RouteModel::Version => ActionModel::Reply(reply_of(Ok(BodyModel::Text(version)), version)),
        RouteModel::Metrics => ActionModel::RenderMetrics,
        RouteModel::Topic { url_name } => ActionModel::Upstream(
            UpstreamCallModel::FetchTopic { url_name },
        ),
        RouteModel::User { short_name } => ActionModel::Upstream(
            UpstreamCallModel::FetchUser { short_name },
        ),
        RouteModel::Search { kind, query } => match search_call_of(
            search_kind_of(kind),
            percent_decoded(query),
        ) {
            Ok(call) => ActionModel::Upstream(call),
            Err(e) => ActionModel::Reply(reply_of(Err(HandlerError::ClientRequest(e)), version)),
        },
        RouteModel::Assets => ActionModel::Assets,
        RouteModel::MethodNotAllowed => ActionModel::Reply(
            reply_of(Err(HandlerError::MethodNotAllowed), version),
        ),
    }
}

/// Says what a routed request asks for.
pub fn plan(route: Route, version: &str) -> (action: Action)
    ensures
        action@ == plan_of(route@, version@),
{
    match route {
        Route::Health => Action::Reply(handle_errors(Ok(Body::Text("OK".to_owned())), version)),
        Route::Version => Action::Reply(
            handle_errors(Ok(Body::Text(version.to_owned())), version),
        ),
        Route::Metrics => Action::RenderMetrics,
        Route::Topic { url_name } => Action::Upstream(topic_call(url_name)),
        Route::User { short_name } => Action::Upstream(user_call(short_name)),
        Route::Search { kind, query } => match plan_search(kind.as_str(), query.as_str()) {
            Ok(call) => Action::Upstream(call),
            Err(e) => Action::Reply(handle_errors(Err(HandlerError::ClientRequest(e)), version)),
        },
        Route::Assets => Action::Assets,
        Route::MethodNotAllowed => Action::Reply(
            handle_errors(Err(HandlerError::MethodNotAllowed), version),
        ),
    }
}

/// The reply to a scrape: always 200, with the rendered text, or with an
/// empty body where rendering failed.
pub fn metrics_reply(rendered: Result<String, MetricsError>, version: &str) -> (reply: Response)
    ensures
        reply@ == reply_of(
            Ok(
                BodyModel::Text(
                    match rendered {
                        Ok(text) => text@,
                        Err(_) => Seq::<char>::empty(),
                    },
                ),
            ),
            version@,
        ),
{
    handle_errors(Ok(Body::Text(metrics_body(rendered))), version)
}

/// What to do where no static file answers `path`: the front end's entry
/// document for a path the front end owns, a 404 without a body for any
/// other.
pub fn asset_fallback(path: &str, version: &str) -> (fallback: AssetFallback)
    ensures
        fallback@ == if is_front_end_path(path@) {
            AssetFallbackModel::Index
        } else {
            AssetFallbackModel::Reply(reply_of(Err(HandlerError::NotFound), version@))
        },
{
    if front_end_path(path) {
        AssetFallback::Index
    } else {
        AssetFallback::Reply(handle_errors(Err(HandlerError::NotFound), version))
    }
}

/// What the upstream handed back, with the object taken by its value.
pub open spec fn fetched_model<T: View>(fetched: Result<T, UpstreamError>) -> Result<
    T::V,
    UpstreamError,
> {
    match fetched {
        Ok(object) => Ok(object@),
        Err(e) => Err(e),
    }
}

/// The outcome of fetching a topic: the projected topic, or the upstream's
/// failure, or a projection error where the topic has no creator.
pub open spec fn topic_outcome(fetched: Result<TopicModel, UpstreamError>) -> Result<
    BodyModel,
    HandlerError,
> {
    match fetched {
        Err(e) => Err(HandlerError::Upstream(e)),
        Ok(topic) => match project_topic(topic) {
            Ok(json) => Ok(BodyModel::Topic(json)),
            Err(e) => Err(HandlerError::Projection(e)),
        },
    }
}

/// The outcome of fetching a user: the projected user, or the upstream's
/// failure.
pub open spec fn user_outcome(fetched: Result<UserModel, UpstreamError>) -> Result<
    BodyModel,
    HandlerError,
> {
    match fetched {
        Err(e) => Err(HandlerError::Upstream(e)),
        Ok(user) => Ok(BodyModel::User(project_user(user))),
    }
}

/// The outcome of a search: the projected results, or the upstream's
/// failure, or a projection error where a topic among them has no creator.
pub open spec fn search_outcome(fetched: Result<SearchResultsModel, UpstreamError>) -> Result<
    BodyModel,
    HandlerError,
> {
    match fetched {
        Err(e) => Err(HandlerError::Upstream(e)),
        Ok(results) => match project_search(results) {
            Ok(json) => Ok(BodyModel::Search(json)),
            Err(e) => Err(HandlerError::Projection(e)),
        },
    }
}

/// Finishes a topic request with what the upstream handed back.
pub fn get_topic(fetched: Result<Topic, UpstreamError>) -> (outcome: Result<Body, HandlerError>)
    ensures
        outcome_model(outcome) == topic_outcome(fetched_model(fetched)),
{
    match fetched {
        Err(e) => Err(HandlerError::Upstream(e)),
        Ok(topic) => match TopicJsonOutput::project(topic) {
            Ok(json) => Ok(Body::Topic(json)),
            Err(e) => Err(HandlerError::Projection(e)),
        },
    }
}

/// Finishes a user request with what the upstream handed back.
pub fn get_user(fetched: Result<User, UpstreamError>) -> (outcome: Result<Body, HandlerError>)
    ensures
        outcome_model(outcome) == user_outcome(fetched_model(fetched)),
{
    match fetched {
        Err(e) => Err(HandlerError::Upstream(e)),
        Ok(user) => Ok(Body::User(UserJsonOutput::from(user))),
    }
}

/// Finishes a search request with what the upstream handed back.
pub fn search(fetched: Result<SearchResults, UpstreamError>) -> (outcome: Result<
    Body,
    HandlerError,
>)
    ensures
        outcome_model(outcome) == search_outcome(fetched_model(fetched)),
{
    match fetched {
        Err(e) => Err(HandlerError::Upstream(e)),
        Ok(results) => match SearchJsonOutput::project(results) {
            Ok(json) => Ok(Body::Search(json)),
            Err(e) => Err(HandlerError::Projection(e)),
        },
    }
}

/// The health check answers 200 with the body `OK`, whatever the state of
/// the upstream or of the metrics: the reply is fixed by the request alone,
/// and nothing is asked of either.
pub proof fn lemma_health_is_always_ok(version: Seq<char>)
    ensures
        plan_of(route_of("GET"@, "/health"@), version) == ActionModel::Reply(
            ResponseModel {
                status: STATUS_OK,
                server: server_header_of(version),
                body: BodyModel::Text("OK"@),
            },
        ),
{
}

/// A successful fetch of a topic with a creator is answered 200 with as
/// many posts as the upstream sent curated posts, and with none when the
/// upstream sent no list.
pub proof fn lemma_topic_reply_posts(topic: TopicModel, version: Seq<char>)
    requires
        topic.creator is Some,
    ensures
        reply_of(topic_outcome(Ok(topic)), version).status == STATUS_OK,
        reply_of(topic_outcome(Ok(topic)), version).body matches BodyModel::Topic(json)
            && json.posts.len() == match topic.curated_posts {
            Some(posts) => posts.len(),
            None => 0,
        },
{
}

/// A topic that comes without its creator is answered 502, never 200.
pub proof fn lemma_topic_without_creator_is_bad_gateway(topic: TopicModel, version: Seq<char>)
    requires
        topic.creator is None,
    ensures
        reply_of(topic_outcome(Ok(topic)), version).status == STATUS_BAD_GATEWAY,
        !(reply_of(topic_outcome(Ok(topic)), version).body is Topic),
{
}

/// A search is forwarded only with its query decoded, in the fixed
/// language; where the kind is unknown or the query does not decode, the
/// reply is 400 and nothing is forwarded.
pub proof fn lemma_search_decodes_before_forwarding(
    kind: Seq<char>,
    query: Seq<char>,
    version: Seq<char>,
)
    ensures
        search_kind_of(kind) is Some && percent_decoded(query) is Some ==> plan_of(
            RouteModel::Search { kind, query },
            version,
        ) == ActionModel::Upstream(
            UpstreamCallModel::Search {
                kind: search_kind_of(kind)->0,
                query: percent_decoded(query)->0,
                lang: SEARCH_LANGUAGE@,
            },
        ),
        search_kind_of(kind) is None || percent_decoded(query) is None ==> (plan_of(
            RouteModel::Search { kind, query },
            version,
        ) matches ActionModel::Reply(reply) && reply.status == STATUS_BAD_REQUEST),
{
}

/// Whatever the route, a reply that is planned at once carries the `Server`
/// header with the service's name and the version.
pub proof fn lemma_planned_reply_has_server_header(route: RouteModel, version: Seq<char>)
    ensures
        plan_of(route, version) matches ActionModel::Reply(reply) ==> reply.server
            == server_header_of(version),
{
}

/// Asking twice for a user that has not changed upstream gives the same
/// reply both times.
pub proof fn lemma_user_reply_repeatable(first: User, second: User, version: Seq<char>)
    requires
        first@ == second@,
    ensures
        reply_of(user_outcome(Ok(first@)), version) == reply_of(
            user_outcome(Ok(second@)),
            version,
        ),
{
}

} // verus!
