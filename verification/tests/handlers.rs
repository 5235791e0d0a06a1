use scoopit_api_demo::error::{
    ClientRequestError, HandlerError, LogLevel, Operation, UpstreamError,
};
use scoopit_api_demo::gateway::{SearchKind, UpstreamCall};
use scoopit_api_demo::handlers::{
    asset_fallback, get_topic, get_user, metrics_reply, plan, search, Action, AssetFallback,
};
use scoopit_api_demo::metrics::MetricsError;
use scoopit_api_demo::output::ProjectionError;
use scoopit_api_demo::response::{handle_errors, server_header, Body, Response, SERVICE_NAME};
use scoopit_api_demo::router::route;
use scoopit_api_demo::upstream::{Post, SearchResults, Topic, User};

const VERSION: &str = "1.2.3";

fn alice() -> User {
    User {
        name: "Alice".to_string(),
        short_name: "alice".to_string(),
        url: "https://www.scoop.it/u/alice".to_string(),
        bio: None,
        large_avatar_url: "https://img.scoop.it/alice/large.png".to_string(),
    }
}

fn post(title: &str) -> Post {
    Post {
        title: title.to_string(),
        html_content: "<p>content</p>".to_string(),
        html_fragment: None,
        html_insight: None,
        scoop_url: "https://www.scoop.it/p/1".to_string(),
        url: None,
        large_image_url: None,
    }
}

fn design(creator: Option<User>, posts: Option<Vec<Post>>) -> Topic {
    Topic {
        name: "Design".to_string(),
        short_name: "design".to_string(),
        description: None,
        curated_post_count: 3,
        large_image_url: "https://img.scoop.it/design/large.png".to_string(),
        url: "https://www.scoop.it/topic/design".to_string(),
        creator: creator.map(Box::new),
        curated_posts: posts,
    }
}

fn unreachable_upstream(operation: Operation) -> UpstreamError {
    UpstreamError { operation, cause: "connection refused by 10.0.0.7".to_string() }
}

fn reply_of(action: Action) -> Response {
    match action {
        Action::Reply(reply) => reply,
        other => panic!("not a reply: {:?}", other),
    }
}

fn call_of(action: Action) -> UpstreamCall {
    match action {
        Action::Upstream(call) => call,
        other => panic!("not a call: {:?}", other),
    }
}

fn text_of(body: &Body) -> &str {
    match body {
        Body::Text(text) => text,
        other => panic!("not text: {:?}", other),
    }
}

#[test]
fn server_header_is_name_space_version() {
    assert_eq!(SERVICE_NAME, "scoopit-api-demo");
    assert_eq!(server_header("1.2.3"), "scoopit-api-demo 1.2.3");
    assert_eq!(server_header(""), "scoopit-api-demo ");
}

#[test]
fn health_is_answered_at_once_with_ok() {
    let reply = reply_of(plan(route("GET", "/health"), VERSION));
    assert_eq!(reply.status, 200);
    assert_eq!(text_of(&reply.body), "OK");
    assert_eq!(reply.server, "scoopit-api-demo 1.2.3");
}

#[test]
fn version_is_answered_at_once_with_the_version() {
    let reply = reply_of(plan(route("GET", "/version"), VERSION));
    assert_eq!(reply.status, 200);
    assert_eq!(text_of(&reply.body), "1.2.3");
    assert_eq!(reply.server, "scoopit-api-demo 1.2.3");
}

#[test]
fn metrics_route_asks_for_the_rendering() {
    assert!(matches!(plan(route("GET", "/metrics"), VERSION), Action::RenderMetrics));
}

#[test]
fn topic_route_asks_for_the_topic() {
    match call_of(plan(route("GET", "/api/topic/design"), VERSION)) {
        UpstreamCall::FetchTopic { url_name } => assert_eq!(url_name, "design"),
        other => panic!("unexpected call {:?}", other),
    }
}

#[test]
fn user_route_asks_for_the_user() {
    match call_of(plan(route("GET", "/api/user/alice"), VERSION)) {
        UpstreamCall::FetchUser { short_name } => assert_eq!(short_name, "alice"),
        other => panic!("unexpected call {:?}", other),
    }
}

#[test]
fn search_route_asks_for_a_search_with_the_decoded_query() {
    match call_of(plan(route("GET", "/api/search/post/hello%20world"), VERSION)) {
        UpstreamCall::Search { kind, query, lang } => {
            assert_eq!(kind, SearchKind::Post);
            assert_eq!(query, "hello world");
            assert_eq!(lang, "fr");
        }
        other => panic!("unexpected call {:?}", other),
    }
}

#[test]
fn search_with_undecodable_query_is_a_bad_request() {
    let reply = reply_of(plan(route("GET", "/api/search/post/%FF%FE"), VERSION));
    assert_eq!(reply.status, 400);
    assert_eq!(text_of(&reply.body), "Bad Request");
    assert_eq!(reply.server, "scoopit-api-demo 1.2.3");
}

#[test]
fn search_with_unknown_kind_is_a_bad_request() {
    let reply = reply_of(plan(route("GET", "/api/search/posts/hello%20world"), VERSION));
    assert_eq!(reply.status, 400);
    assert_eq!(text_of(&reply.body), "Bad Request");
    assert_eq!(reply.server, "scoopit-api-demo 1.2.3");
}

#[test]
fn other_methods_are_refused() {
    let reply = reply_of(plan(route("POST", "/api/topic/design"), VERSION));
    assert_eq!(reply.status, 405);
    assert_eq!(text_of(&reply.body), "Method Not Allowed");
    assert_eq!(reply.server, "scoopit-api-demo 1.2.3");
}

#[test]
fn unknown_path_is_left_to_the_assets() {
    assert!(matches!(plan(route("GET", "/unknown/path"), VERSION), Action::Assets));
}

#[test]
fn missing_asset_on_a_front_end_path_serves_the_index() {
    assert!(matches!(asset_fallback("/topic/design", VERSION), AssetFallback::Index));
    assert!(matches!(asset_fallback("/search", VERSION), AssetFallback::Index));
}

#[test]
fn missing_asset_elsewhere_is_not_found_without_a_body() {
    match asset_fallback("/unknown/path", VERSION) {
        AssetFallback::Reply(reply) => {
            assert_eq!(reply.status, 404);
            assert!(matches!(reply.body, Body::Empty));
            assert_eq!(reply.server, "scoopit-api-demo 1.2.3");
        }
        other => panic!("unexpected fallback {:?}", other),
    }
}

#[test]
fn fetched_topic_is_answered_with_its_projection() {
    let fetched = design(Some(alice()), Some(vec![post("A")]));
    let reply = handle_errors(get_topic(Ok(fetched)), VERSION);
    assert_eq!(reply.status, 200);
    assert_eq!(reply.server, "scoopit-api-demo 1.2.3");
    match reply.body {
        Body::Topic(topic) => {
            assert_eq!(topic.name, "Design");
            assert_eq!(topic.short_name, "design");
            assert_eq!(topic.post_count, 3);
            assert_eq!(topic.creator.name, "Alice");
            assert_eq!(topic.posts.len(), 1);
            assert_eq!(topic.posts[0].title, "A");
        }
        other => panic!("unexpected body {:?}", other),
    }
}

#[test]
fn fetched_topic_without_posts_list_is_answered_with_no_posts() {
    let reply = handle_errors(get_topic(Ok(design(Some(alice()), None))), VERSION);
    assert_eq!(reply.status, 200);
    match reply.body {
        Body::Topic(topic) => assert!(topic.posts.is_empty()),
        other => panic!("unexpected body {:?}", other),
    }
}

#[test]
fn fetched_topic_without_creator_is_a_bad_gateway() {
    let outcome = get_topic(Ok(design(None, Some(vec![post("A")]))));
    assert!(matches!(
        outcome,
        Err(HandlerError::Projection(ProjectionError::MissingCreator))
    ));
    let reply = handle_errors(outcome, VERSION);
    assert_eq!(reply.status, 502);
    assert_eq!(text_of(&reply.body), "Bad Gateway");
    assert_eq!(reply.server, "scoopit-api-demo 1.2.3");
}

#[test]
fn failed_topic_fetch_is_a_bad_gateway_that_hides_the_cause() {
    let outcome = get_topic(Err(unreachable_upstream(Operation::FetchTopic)));
    match &outcome {
        Err(HandlerError::Upstream(e)) => {
            assert_eq!(e.operation, Operation::FetchTopic);
            assert_eq!(e.cause, "connection refused by 10.0.0.7");
        }
        other => panic!("unexpected outcome {:?}", other),
    }
    let reply = handle_errors(outcome, VERSION);
    assert_eq!(reply.status, 502);
    assert_eq!(text_of(&reply.body), "Bad Gateway");
}

#[test]
fn fetched_user_is_answered_with_its_projection() {
    let reply = handle_errors(get_user(Ok(alice())), VERSION);
    assert_eq!(reply.status, 200);
    match reply.body {
        Body::User(user) => {
            assert_eq!(user.name, "Alice");
            assert_eq!(user.avatar_url, "https://img.scoop.it/alice/large.png");
        }
        other => panic!("unexpected body {:?}", other),
    }
}

#[test]
fn failed_user_fetch_is_a_bad_gateway() {
    let reply = handle_errors(get_user(Err(unreachable_upstream(Operation::FetchUser))), VERSION);
    assert_eq!(reply.status, 502);
    assert_eq!(text_of(&reply.body), "Bad Gateway");
}

#[test]
fn repeating_a_user_request_gives_the_same_reply() {
    let first = handle_errors(get_user(Ok(alice())), VERSION);
    let second = handle_errors(get_user(Ok(alice())), VERSION);
    assert_eq!(format!("{:?}", first), format!("{:?}", second));
}

#[test]
fn search_results_are_answered_with_their_projection() {
    let results = SearchResults {
        users: None,
        topics: None,
        posts: Some(vec![post("A"), post("B")]),
        total_found: 2,
    };
    let reply = handle_errors(search(Ok(results)), VERSION);
    assert_eq!(reply.status, 200);
    match reply.body {
        Body::Search(found) => {
            assert_eq!(found.total_found, 2);
            assert!(found.users.is_none());
            assert!(found.topics.is_none());
            assert_eq!(found.posts.map(|p| p.len()), Some(2));
        }
        other => panic!("unexpected body {:?}", other),
    }
}

#[test]
fn search_results_with_an_orphan_topic_are_a_bad_gateway() {
    let results = SearchResults {
        users: None,
        topics: Some(vec![design(None, None)]),
        posts: None,
        total_found: 1,
    };
    let reply = handle_errors(search(Ok(results)), VERSION);
    assert_eq!(reply.status, 502);
}

#[test]
fn failed_search_is_a_bad_gateway() {
    let reply = handle_errors(search(Err(unreachable_upstream(Operation::Search))), VERSION);
    assert_eq!(reply.status, 502);
    assert_eq!(text_of(&reply.body), "Bad Gateway");
}

#[test]
fn each_error_has_its_status_and_message() {
    let cases: Vec<(HandlerError, u16, &str)> = vec![
        (HandlerError::ClientRequest(ClientRequestError::UnknownSearchKind), 400, "Bad Request"),
        (HandlerError::ClientRequest(ClientRequestError::UndecodableQuery), 400, "Bad Request"),
        (HandlerError::Upstream(unreachable_upstream(Operation::Search)), 502, "Bad Gateway"),
        (HandlerError::Projection(ProjectionError::MissingCreator), 502, "Bad Gateway"),
        (HandlerError::NotFound, 404, ""),
        (HandlerError::MethodNotAllowed, 405, "Method Not Allowed"),
    ];
    for (error, status, message) in cases {
        assert_eq!(error.status(), status);
        assert_eq!(error.message(), message);
        let reply = handle_errors(Err(error), VERSION);
        assert_eq!(reply.status, status);
        assert_eq!(reply.server, "scoopit-api-demo 1.2.3");
        if message.is_empty() {
            assert!(matches!(reply.body, Body::Empty));
        } else {
            assert_eq!(text_of(&reply.body), message);
        }
    }
}

#[test]
fn success_is_answered_200_with_the_body_as_it_is() {
    let reply = handle_errors(Ok(Body::Text("hello".to_string())), VERSION);
    assert_eq!(reply.status, 200);
    assert_eq!(text_of(&reply.body), "hello");
    let reply = handle_errors(Ok(Body::Empty), VERSION);
    assert_eq!(reply.status, 200);
    assert!(matches!(reply.body, Body::Empty));
}

#[test]
fn scrape_is_answered_200_with_the_rendered_text() {
    let reply = metrics_reply(Ok("up 1\n".to_string()), VERSION);
    assert_eq!(reply.status, 200);
    assert_eq!(text_of(&reply.body), "up 1\n");
    assert_eq!(reply.server, "scoopit-api-demo 1.2.3");
}

#[test]
fn scrape_is_answered_200_with_nothing_when_rendering_failed() {
    let reply = metrics_reply(Err(MetricsError::UntypedFamily), VERSION);
    assert_eq!(reply.status, 200);
    assert_eq!(text_of(&reply.body), "");
    assert_eq!(reply.server, "scoopit-api-demo 1.2.3");
}

#[test]
fn each_error_has_its_log_level() {
    assert_eq!(
        HandlerError::ClientRequest(ClientRequestError::UnknownSearchKind).log_level(),
        Some(LogLevel::Debug)
    );
    assert_eq!(
        HandlerError::ClientRequest(ClientRequestError::UndecodableQuery).log_level(),
        Some(LogLevel::Debug)
    );
    assert_eq!(
        HandlerError::Upstream(unreachable_upstream(Operation::FetchUser)).log_level(),
        Some(LogLevel::Warn)
    );
    assert_eq!(
        HandlerError::Projection(ProjectionError::MissingCreator).log_level(),
        Some(LogLevel::Warn)
    );
    assert_eq!(HandlerError::NotFound.log_level(), None);
    assert_eq!(HandlerError::MethodNotAllowed.log_level(), None);
}
