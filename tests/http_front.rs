use rslocal::http::{
    build_raw_request, entrypoint_host, find_head_end, get_site_host, parse_response_head, remove_site_host,
    setup_site_host, vhost_not_found, HttpServerInner, ResponseEvent, ResponseRelay,
};
use rslocal::config::HTTPConfig;
use rslocal::table::KeyedTable;

fn front() -> HttpServerInner<u32> {
    HttpServerInner::new(HTTPConfig { bind_addr: "0.0.0.0:80".to_string(), default_domain: "example.test".to_string() })
}

#[test]
fn raw_request_of_a_get() {
    let headers = vec![("Host".to_string(), b"demo.example.test".to_vec())];
    let raw = build_raw_request("GET", "/ping", 1, 1, &headers, b"");
    assert_eq!(raw, b"GET /ping HTTP/1.1\r\nHost: demo.example.test\r\n\r\n".to_vec());
}

#[test]
fn raw_request_with_body_and_headers() {
    let headers = vec![
        ("Content-Type".to_string(), b"text/plain".to_vec()),
        ("X-Custom".to_string(), b"v".to_vec()),
    ];
    let raw = build_raw_request("POST", "/a?b=c", 1, 0, &headers, b"hello");
    assert_eq!(
        raw,
        b"POST /a?b=c HTTP/1.0\r\nContent-Type: text/plain\r\nX-Custom: v\r\n\r\nhello".to_vec()
    );
    assert_eq!(build_raw_request("GET", "/", 2, 0, &Vec::new(), b""), b"GET / HTTP/2.0\r\n\r\n".to_vec());
}

#[test]
fn response_split_on_first_chunk() {
    let mut relay = ResponseRelay::new();
    let ev = relay.on_data(b"HTTP/1.1 200 OK\r\nContent-Length: 2\r\n\r\nok".to_vec());
    assert_eq!(
        ev,
        ResponseEvent::Head { head: b"HTTP/1.1 200 OK\r\nContent-Length: 2\r\n\r\n".to_vec(), body: b"ok".to_vec() }
    );
    assert_eq!(relay.on_data(b"more\r\n\r\nbytes".to_vec()), ResponseEvent::Body(b"more\r\n\r\nbytes".to_vec()));
    assert_eq!(relay.on_data(b"EOF".to_vec()), ResponseEvent::End);
}

#[test]
fn response_without_head_is_body() {
    let mut relay = ResponseRelay::new();
    assert_eq!(relay.on_data(b"just bytes".to_vec()), ResponseEvent::Headless(b"just bytes".to_vec()));
    let mut late = vec![b'a'; 1022];
    late.extend_from_slice(b"\r\n\r\n");
    assert_eq!(find_head_end(&late), None);
    let mut edge = vec![b'a'; 1020];
    edge.extend_from_slice(b"\r\n\r\n");
    assert_eq!(find_head_end(&edge), Some(1020));
    assert_eq!(find_head_end(b"\r\n\r"), None);
}

#[test]
fn response_head_parses() {
    let head = parse_response_head(b"HTTP/1.1 200 OK\r\nContent-Length: 2\r\n\r\n").unwrap();
    assert_eq!(head.status, 200);
    assert_eq!(head.headers, vec![("Content-Length".to_string(), b"2".to_vec())]);
    let head = parse_response_head(b"HTTP/1.1 404 Not Found\r\nA: 1\r\nB: 2\r\n\r\n").unwrap();
    assert_eq!(head.status, 404);
    assert_eq!(head.headers.len(), 2);
    assert_eq!(parse_response_head(b"garbage\r\n\r\n"), None);
    assert_eq!(parse_response_head(b"HTTP/1.1 200 OK\r\n"), None);
}

#[test]
fn vhost_not_found_reply() {
    let (status, body) = vhost_not_found();
    assert_eq!(status, 404);
    assert_eq!(body, b"vHost Not Found".to_vec());
    let f = front();
    assert_eq!(f.vhost_match(Some("unknown.example.test")), None);
    assert_eq!(f.vhost_match(None), None);
}

#[test]
fn vhosts_follow_register_and_release() {
    let mut f = front();
    assert!(f.event_handler("http://demo.example.test", 5, false));
    assert_eq!(f.vhost_match(Some("demo.example.test")), Some(&5));
    assert_eq!(f.vhost_match(Some("other.example.test")), None);
    assert!(f.event_handler("http://demo.example.test", 0, true));
    assert_eq!(f.vhost_match(Some("demo.example.test")), None);
    assert!(!f.event_handler("not a url", 1, false));
    assert_eq!(f.cfg().default_domain, "example.test");
}

#[test]
fn entrypoint_hosts() {
    assert_eq!(entrypoint_host("http://demo.example.test"), Some("demo.example.test".to_string()));
    assert_eq!(entrypoint_host("http://a.b:8080"), Some("a.b:8080".to_string()));
    assert_eq!(entrypoint_host("tcp://0.0.0.0:50000"), Some("0.0.0.0:50000".to_string()));
    assert_eq!(entrypoint_host("nonsense"), None);
}

#[test]
fn site_hosts() {
    let mut sites: KeyedTable<u32> = KeyedTable::new();
    assert!(setup_site_host(&mut sites, "a.test".to_string(), 1));
    assert!(!setup_site_host(&mut sites, "a.test".to_string(), 2));
    assert_eq!(get_site_host(&sites, "a.test"), Some(&1));
    remove_site_host(&mut sites, "a.test");
    assert_eq!(get_site_host(&sites, "a.test"), None);
    assert_eq!(sites.len(), 0);
}
