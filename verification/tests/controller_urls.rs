use mihomoctl::controller::{controller_base, request_url, websocket_scheme, websocket_url};

#[test]
fn websocket_urls_are_built_from_controller_urls() {
    assert_eq!(
        websocket_url("http://127.0.0.1:9090/api", Some("secret-token"), "traffic?interval=1000").unwrap(),
        "ws://127.0.0.1:9090/api/traffic?interval=1000&token=secret-token"
    );
    assert_eq!(
        websocket_url("https://example.com/controller/", None, "connections").unwrap(),
        "wss://example.com/controller/connections"
    );
}

#[test]
fn websocket_secret_is_form_encoded() {
    assert_eq!(
        websocket_url("http://host:9090", Some("a b&c"), "logs").unwrap(),
        "ws://host:9090/logs?token=a+b%26c"
    );
}

#[test]
fn websocket_url_refuses_other_schemes_and_bad_urls() {
    assert_eq!(websocket_url("ftp://host/", None, "logs"), None);
    assert_eq!(websocket_url("not a url", None, "logs"), None);
    assert_eq!(websocket_url("ws://host:9090/", None, "memory").unwrap(), "ws://host:9090/memory");
}

#[test]
fn websocket_schemes() {
    assert_eq!(websocket_scheme("http"), Some("ws"));
    assert_eq!(websocket_scheme("wss"), Some("wss"));
    assert_eq!(websocket_scheme("file"), None);
}

#[test]
fn controller_base_ends_with_one_slash() {
    assert_eq!(controller_base("http://a:1/api"), "http://a:1/api/");
    assert_eq!(controller_base("http://a:1/api/"), "http://a:1/api/");
    assert_eq!(controller_base(""), "/");
}

#[test]
fn request_urls_resolve_below_the_controller() {
    assert_eq!(request_url("http://127.0.0.1:9090/api", "proxies").unwrap(), "http://127.0.0.1:9090/api/proxies");
    assert_eq!(request_url("http://h:1", "group/G%20A/delay?url=u").unwrap(), "http://h:1/group/G%20A/delay?url=u");
    assert_eq!(request_url("not a url", "proxies"), None);
}
