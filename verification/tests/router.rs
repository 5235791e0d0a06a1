use scoopit_api_demo::router::{front_end_path, route, Route};

fn is_assets(r: &Route) -> bool {
    matches!(r, Route::Assets)
}

#[test]
fn operational_routes_match_exactly() {
    assert!(matches!(route("GET", "/health"), Route::Health));
    assert!(matches!(route("GET", "/version"), Route::Version));
    assert!(matches!(route("GET", "/metrics"), Route::Metrics));
}

#[test]
fn a_trailing_slash_does_not_match() {
    assert!(is_assets(&route("GET", "/health/")));
    assert!(is_assets(&route("GET", "/version/")));
    assert!(is_assets(&route("GET", "/metrics/")));
    assert!(is_assets(&route("GET", "/api/topic/design/")));
    assert!(is_assets(&route("GET", "/api/user/alice/")));
    assert!(is_assets(&route("GET", "/api/search/post/rust/")));
}

#[test]
fn a_longer_or_shorter_path_does_not_match() {
    assert!(is_assets(&route("GET", "/healthz")));
    assert!(is_assets(&route("GET", "/healt")));
    assert!(is_assets(&route("GET", "health")));
    assert!(is_assets(&route("GET", "")));
    assert!(is_assets(&route("GET", "/")));
    assert!(is_assets(&route("GET", "/api")));
    assert!(is_assets(&route("GET", "/api/topic")));
    assert!(is_assets(&route("GET", "/api/topic/")));
    assert!(is_assets(&route("GET", "/api/topic/a/b")));
    assert!(is_assets(&route("GET", "/api/search/post")));
    assert!(is_assets(&route("GET", "/api/search/post/")));
    assert!(is_assets(&route("GET", "/api/search//rust")));
    assert!(is_assets(&route("GET", "/api/search/post/a/b")));
}

#[test]
fn topic_route_hands_on_the_url_name() {
    match route("GET", "/api/topic/design") {
        Route::Topic { url_name } => assert_eq!(url_name, "design"),
        other => panic!("unexpected route {:?}", other),
    }
}

#[test]
fn user_route_hands_on_the_short_name() {
    match route("GET", "/api/user/alice") {
        Route::User { short_name } => assert_eq!(short_name, "alice"),
        other => panic!("unexpected route {:?}", other),
    }
}

#[test]
fn search_route_hands_on_both_parameters_undecoded() {
    match route("GET", "/api/search/post/hello%20world") {
        Route::Search { kind, query } => {
            assert_eq!(kind, "post");
            assert_eq!(query, "hello%20world");
        }
        other => panic!("unexpected route {:?}", other),
    }
}

#[test]
fn parameters_may_hold_characters_beyond_ascii() {
    match route("GET", "/api/topic/caf\u{e9}") {
        Route::Topic { url_name } => assert_eq!(url_name, "caf\u{e9}"),
        other => panic!("unexpected route {:?}", other),
    }
    match route("GET", "/api/search/\u{fc}ser/\u{65e5}\u{672c}") {
        Route::Search { kind, query } => {
            assert_eq!(kind, "\u{fc}ser");
            assert_eq!(query, "\u{65e5}\u{672c}");
        }
        other => panic!("unexpected route {:?}", other),
    }
}

#[test]
fn only_get_is_served() {
    assert!(matches!(route("POST", "/health"), Route::MethodNotAllowed));
    assert!(matches!(route("PUT", "/api/topic/design"), Route::MethodNotAllowed));
    assert!(matches!(route("get", "/health"), Route::MethodNotAllowed));
    assert!(matches!(route("", "/unknown"), Route::MethodNotAllowed));
    assert!(matches!(route("GETS", "/health"), Route::MethodNotAllowed));
}

#[test]
fn unknown_paths_fall_to_the_assets() {
    assert!(is_assets(&route("GET", "/unknown/path")));
    assert!(is_assets(&route("GET", "/index.html")));
    assert!(is_assets(&route("GET", "/topic/design")));
}

#[test]
fn front_end_owns_topic_and_search_whatever_follows() {
    assert!(front_end_path("/topic"));
    assert!(front_end_path("/topic/"));
    assert!(front_end_path("/topic/design"));
    assert!(front_end_path("/topic/design/more"));
    assert!(front_end_path("/search"));
    assert!(front_end_path("/search/post/rust"));
}

#[test]
fn front_end_does_not_own_other_paths() {
    assert!(!front_end_path("/topics"));
    assert!(!front_end_path("/searching"));
    assert!(!front_end_path("/unknown/path"));
    assert!(!front_end_path("/"));
    assert!(!front_end_path(""));
    assert!(!front_end_path("topic"));
    assert!(!front_end_path("/api/topic/design"));
}
