use scoopit_api_demo::config::{Config, DEFAULT_STATIC_HTML};

fn config(static_html: Option<&str>) -> Config {
    Config {
        bind_address: "127.0.0.1:8080".to_string(),
        client_id: "id".to_string(),
        client_secret: "secret".to_string(),
        static_html: static_html.map(|s| s.to_string()),
    }
}

#[test]
fn static_html_defaults_to_dev_html() {
    assert_eq!(config(None).static_html(), "./dev-html");
    assert_eq!(DEFAULT_STATIC_HTML, "./dev-html");
}

#[test]
fn static_html_returns_the_configured_directory() {
    assert_eq!(config(Some("/srv/www")).static_html(), "/srv/www");
}

#[test]
fn static_html_keeps_an_empty_directory_as_it_is() {
    assert_eq!(config(Some("")).static_html(), "");
}
