use aras_core::{
    bytes_eq_ignore_ascii_case, get_content_length, parse_usize, concurrency_admits, is_chunked_request, should_upgrade_to_websocket, ASGIService,
    ApplicationFactory, ConnectionInfo, ContentLengthLimit, RequestHead, Scope, ServerConfig, State, ASGI_VERSION,
};

#[derive(Clone, Debug, PartialEq)]
struct MockState(u32);
impl State for MockState {}

fn head(headers: Vec<(Vec<u8>, Vec<u8>)>) -> RequestHead {
    RequestHead {
        http_version: "HTTP/1.1".to_string(),
        method: "GET".to_string(),
        path: "/chat room".to_string(),
        raw_path: b"/chat%20room?x=1".to_vec(),
        query_string: b"x=1".to_vec(),
        headers,
    }
}

fn service() -> ASGIService<MockState, ()> {
    let info = ConnectionInfo::new("10.0.0.2".to_string(), 5555, "127.0.0.1".to_string(), 8080);
    ASGIService::new(ApplicationFactory::new(()), info, MockState(7))
}

#[test]
fn plain_request_gets_an_http_scope() {
    match service().scope_for(head(vec![(b"host".to_vec(), b"x".to_vec())])) {
        Scope::HTTP(s) => {
            assert_eq!(s.type_, "http");
            assert_eq!(s.method, "GET");
            assert_eq!(s.path, "/chat room");
            assert_eq!(s.query_string, b"x=1".to_vec());
            assert_eq!(s.client, Some(("10.0.0.2".to_string(), 5555)));
            assert_eq!(s.server, Some(("127.0.0.1".to_string(), 8080)));
            assert_eq!(s.asgi.version, ASGI_VERSION);
            assert_eq!(s.state, MockState(7));
            assert_eq!(s.scheme, "http");
            assert_eq!(s.root_path, "");
        }
        other => panic!("unexpected {:?}", other),
    }
}

#[test]
fn upgrade_request_gets_a_websocket_scope() {
    let headers = vec![
        (b"Upgrade".to_vec(), b"WebSocket".to_vec()),
        (b"sec-websocket-protocol".to_vec(), b"a, b".to_vec()),
    ];
    match service().scope_for(head(headers)) {
        Scope::Websocket(s) => {
            assert_eq!(s.type_, "websocket");
            assert_eq!(s.subprotocols, vec!["a", "b"]);
            assert_eq!(s.client, Some(("10.0.0.2".to_string(), 5555)));
        }
        other => panic!("unexpected {:?}", other),
    }
}

#[test]
fn upgrade_detection() {
    assert!(should_upgrade_to_websocket(&vec![(b"upgrade".to_vec(), b"websocket".to_vec())]));
    assert!(!should_upgrade_to_websocket(&vec![(b"upgrade".to_vec(), b"h2c".to_vec())]));
    assert!(!should_upgrade_to_websocket(&Vec::new()));
    assert!(bytes_eq_ignore_ascii_case(b"Content-Length", b"content-length"));
    assert!(!bytes_eq_ignore_ascii_case(b"Content-Length", b"content-lengt"));
}

#[test]
fn body_size_guard() {
    let guard = ContentLengthLimit::new(10);
    assert!(!guard.rejects(false, Some(10)));
    assert!(guard.rejects(false, Some(11)));
    assert!(guard.rejects(false, None));
    assert!(!guard.rejects(true, None));
    assert!(is_chunked_request(&vec![(b"Transfer-Encoding".to_vec(), b"chunked".to_vec())]));
    assert!(!is_chunked_request(&vec![(b"transfer-encoding".to_vec(), b"gzip".to_vec())]));
    assert!(!is_chunked_request(&Vec::new()));
}

#[test]
fn concurrency_guard() {
    assert!(!concurrency_admits(0));
    assert!(concurrency_admits(1));
}

#[test]
fn default_config() {
    let c = ServerConfig::default();
    assert!(c.keep_alive);
    assert_eq!(c.addr, [127, 0, 0, 1]);
    assert_eq!(c.port, 8080);
    assert_eq!(c.max_size, 1_000_000_000);
    assert_eq!(c.limit_concurrency, None);
}

#[test]
fn content_length_is_read_from_the_first_such_header() {
    let h = |v: &str| vec![(b"Content-Length".to_vec(), v.as_bytes().to_vec()), (b"content-length".to_vec(), b"7".to_vec())];
    assert_eq!(get_content_length(&h("42")), 42);
    assert_eq!(get_content_length(&h("+42")), 42);
    assert_eq!(get_content_length(&h("4x")), 0);
    assert_eq!(get_content_length(&h("")), 0);
    assert_eq!(get_content_length(&h("-1")), 0);
    assert_eq!(get_content_length(&Vec::new()), 0);
    assert_eq!(parse_usize(b"18446744073709551615"), Some(usize::MAX));
    assert_eq!(parse_usize(b"18446744073709551616"), None);
    assert_eq!(parse_usize(b"+"), None);
    assert_eq!(parse_usize(b"007"), Some(7));
}
