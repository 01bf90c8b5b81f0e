use realtime_rs::realtime_client::{ConnectError, RealtimeClientBuilder};
use realtime_rs::request::{build_request, socket_target};
use realtime_rs::string_map::StringMap;
use realtime_rs::uri::UriParts;
use tungstenite::http::{HeaderMap, HeaderValue};

fn text(value: &str) -> String {
    value.to_string()
}

fn uri_of(endpoint: &str, token: &str) -> Option<String> {
    match build_request(&text(endpoint), &text(token), &None, &HeaderMap::new()) {
        Some(Ok(request)) => Some(request.uri),
        _ => None,
    }
}

#[test]
fn an_http_endpoint_has_a_ws_socket() {
    assert_eq!(
        uri_of("http://127.0.0.1:54321", "key"),
        Some(text("ws://127.0.0.1:54321/realtime/v1/websocket?apikey=key&vsn=1.0.0"))
    );
}

#[test]
fn every_other_endpoint_has_a_wss_socket() {
    assert_eq!(
        uri_of("https://example.supabase.co", "key"),
        Some(text("wss://example.supabase.co/realtime/v1/websocket?apikey=key&vsn=1.0.0"))
    );
    assert_eq!(
        uri_of("ws://example.supabase.co", "key"),
        Some(text("wss://example.supabase.co/realtime/v1/websocket?apikey=key&vsn=1.0.0"))
    );
}

#[test]
fn a_base_path_stays_in_front() {
    assert_eq!(
        uri_of("http://localhost/base", "key"),
        Some(text("ws://localhost/base/realtime/v1/websocket?apikey=key&vsn=1.0.0"))
    );
}

#[test]
fn further_params_stand_behind_the_query() {
    let mut params = StringMap::new();
    params.insert(text("one"), text("1"));
    params.insert(text("two"), text("2"));
    let request = build_request(
        &text("http://localhost"),
        &text("key"),
        &Some(params),
        &HeaderMap::new(),
    )
    .unwrap()
    .unwrap();
    assert_eq!(request.scheme, "ws");
    assert_eq!(request.authority, "localhost");
    assert_eq!(
        request.path_and_query,
        "/realtime/v1/websocket?apikey=key&vsn=1.0.0&one=1&two=2"
    );
    assert_eq!(
        request.uri,
        "ws://localhost/realtime/v1/websocket?apikey=key&vsn=1.0.0&one=1&two=2"
    );
}

#[test]
fn the_parts_of_a_uri_lead_to_its_socket() {
    let parts = |scheme: Option<&str>, authority: Option<&str>, path: Option<&str>| UriParts {
        scheme: scheme.map(text),
        authority: authority.map(text),
        path_and_query: path.map(text),
    };
    let mut params = StringMap::new();
    params.insert(text("b"), text("2"));
    params.insert(text("a"), text(""));
    let params = Some(params);
    assert_eq!(
        socket_target(parts(Some("http"), Some("user@host:1"), Some("/p?q=1")), &params),
        Some((text("ws"), text("user@host:1"), text("/p?q=1&b=2&a=")))
    );
    assert_eq!(
        socket_target(parts(Some("https"), Some("host"), Some("/p")), &None),
        Some((text("wss"), text("host"), text("/p")))
    );
    assert_eq!(
        socket_target(parts(None, Some("host"), Some("/p")), &None),
        Some((text("wss"), text("host"), text("/p")))
    );
    assert_eq!(socket_target(parts(Some("http"), None, Some("/p")), &None), None);
    assert_eq!(socket_target(parts(Some("http"), Some("host"), None), &params), None);
}

#[test]
fn the_request_asks_for_a_websocket() {
    let mut given = HeaderMap::new();
    given.insert("x-other", HeaderValue::from_static("other"));
    let request =
        build_request(&text("http://user@localhost:8080"), &text("key"), &None, &given).unwrap().unwrap();
    assert_eq!(request.headers.get("host").unwrap(), "localhost:8080");
    assert_eq!(request.headers.get("connection").unwrap(), "Upgrade");
    assert_eq!(request.headers.get("upgrade").unwrap(), "websocket");
    assert_eq!(request.headers.get("sec-websocket-version").unwrap(), "13");
    assert_eq!(request.headers.get("sec-websocket-key").unwrap().len(), 24);
    assert_eq!(request.headers.get("authorization").unwrap(), "Bearer key");
    assert_eq!(request.headers.get("x-client-info").unwrap(), "realtime-rs/0.1.0");
    assert_eq!(request.headers.get("x-other").unwrap(), "other");
    assert_eq!(request.headers.len(), 8);
}

#[test]
fn given_headers_replace_those_of_the_request() {
    let mut given = HeaderMap::new();
    given.insert("authorization", HeaderValue::from_static("Basic abc"));
    let request =
        build_request(&text("http://localhost"), &text("key"), &None, &given).unwrap().unwrap();
    assert_eq!(request.headers.get("authorization").unwrap(), "Basic abc");
}

#[test]
fn an_endpoint_that_is_no_uri_is_bad() {
    let request =
        build_request(&text("http://a b"), &text("key"), &None, &HeaderMap::new());
    assert!(matches!(request, Some(Err(_))));
    let client = RealtimeClientBuilder::new(text("http://a b"), text("key")).connect();
    assert!(matches!(client.build_request(), Some(Err(ConnectError::BadUri))));
}

#[test]
fn an_endpoint_without_a_host_is_bad() {
    let request =
        build_request(&text("http://user@"), &text("key"), &None, &HeaderMap::new());
    assert!(!matches!(request, Some(Ok(_))));
}

#[test]
fn there_is_no_request_without_an_address() {
    let request = build_request(&text(""), &text("key"), &None, &HeaderMap::new());
    assert!(request.is_none());
    let client = RealtimeClientBuilder::new(text("/path"), text("key")).connect();
    assert!(client.build_request().is_none());
}

#[test]
fn there_is_no_request_with_params_that_make_no_address() {
    let mut params = StringMap::new();
    params.insert(text("a b"), text("1"));
    let request =
        build_request(&text("http://localhost"), &text("key"), &Some(params), &HeaderMap::new());
    assert!(request.is_none());
}

#[test]
fn a_client_asks_with_its_own_token() {
    let client = RealtimeClientBuilder::new(text("https://example.com"), text("anon"))
        .access_token(text("user"))
        .connect();
    let request = client.build_request().unwrap().unwrap();
    assert_eq!(
        request.uri,
        "wss://example.com/realtime/v1/websocket?apikey=user&vsn=1.0.0"
    );
    assert_eq!(request.headers.get("authorization").unwrap(), "Bearer user");
}

#[test]
fn simple_parts_make_a_request() {
    assert_eq!(
        uri_of("abcxyz://A.b-c9:1/x.y_z~/?q=1&r=", "aZ09-._~/?=&"),
        Some(text(
            "wss://A.b-c9:1/x.y_z~/?q=1&r=/realtime/v1/websocket?apikey=aZ09-._~/?=&&vsn=1.0.0"
        ))
    );
    let long_scheme = format!("{}://h", "s".repeat(64));
    assert_eq!(
        uri_of(&long_scheme, "k"),
        Some(text("wss://h/realtime/v1/websocket?apikey=k&vsn=1.0.0"))
    );
}

#[test]
fn an_address_has_a_longest_length() {
    let rest = "http://h/realtime/v1/websocket?apikey=&vsn=1.0.0".len();
    assert!(uri_of("http://h", &"k".repeat(65534 - rest)).is_some());
    assert!(uri_of("http://h", &"k".repeat(65535 - rest)).is_none());
}
