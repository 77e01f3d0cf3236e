use rslocal::entrypoint::{http_entrypoint, parse_port_range, tcp_entrypoint, EntrypointError, EntrypointRegistry};
use rslocal::transport::Protocol;

#[test]
fn http_entrypoint_is_lowercased() {
    assert_eq!(http_entrypoint("demo", "example.test"), "http://demo.example.test");
    assert_eq!(http_entrypoint("DeMo", "Example.TEST"), "http://demo.example.test");
}

#[test]
fn tcp_entrypoint_text() {
    assert_eq!(tcp_entrypoint(50000), "tcp://0.0.0.0:50000");
    assert_eq!(tcp_entrypoint(0), "tcp://0.0.0.0:0");
    assert_eq!(tcp_entrypoint(65535), "tcp://0.0.0.0:65535");
}

#[test]
fn port_ranges() {
    assert_eq!(parse_port_range("50000-50010"), Some((50000, 50010)));
    assert_eq!(parse_port_range("007-8"), Some((7, 8)));
    assert_eq!(parse_port_range("5"), None);
    assert_eq!(parse_port_range("a-b"), None);
    assert_eq!(parse_port_range("70000-1"), None);
    assert_eq!(parse_port_range("1-2-3"), None);
    assert_eq!(parse_port_range("-2"), None);
}

#[test]
fn http_collision() {
    let mut reg = EntrypointRegistry::new();
    let first = reg.build_entrypoint(Protocol::Http, "demo", "example.test", "50000-50010");
    assert_eq!(first, Ok("http://demo.example.test".to_string()));
    let second = reg.build_entrypoint(Protocol::Http, "demo", "example.test", "50000-50010");
    assert_eq!(second, Err(EntrypointError::AlreadyExists));
    assert_eq!(reg.len(), 1);
}

#[test]
fn generated_subdomain() {
    let mut reg = EntrypointRegistry::new();
    let ep = reg.build_entrypoint(Protocol::Http, "", "example.test", "").unwrap();
    let sub = ep.strip_prefix("http://").unwrap().strip_suffix(".example.test").unwrap();
    assert_eq!(sub.len(), 8);
    assert!(sub.chars().all(|c| c.is_ascii_lowercase() || c.is_ascii_digit()));
    assert!(reg.contains(&ep));
}

#[test]
fn tcp_lowest_free_port() {
    let mut reg = EntrypointRegistry::new();
    assert_eq!(
        reg.build_entrypoint(Protocol::Tcp, "", "example.test", "50000-50010"),
        Ok("tcp://0.0.0.0:50000".to_string())
    );
    assert_eq!(
        reg.build_entrypoint(Protocol::Tcp, "", "example.test", "50000-50010"),
        Ok("tcp://0.0.0.0:50001".to_string())
    );
    reg.release("tcp://0.0.0.0:50000");
    assert_eq!(
        reg.build_entrypoint(Protocol::Tcp, "", "example.test", "50000-50010"),
        Ok("tcp://0.0.0.0:50000".to_string())
    );
}

#[test]
fn tcp_port_exhaustion() {
    let mut reg = EntrypointRegistry::new();
    assert!(reg.build_entrypoint(Protocol::Tcp, "", "d", "50000-50001").is_ok());
    assert_eq!(reg.build_entrypoint(Protocol::Tcp, "", "d", "50000-50001"), Err(EntrypointError::NoFreePort));
    assert_eq!(reg.build_entrypoint(Protocol::Tcp, "", "d", "50000-50000"), Err(EntrypointError::NoFreePort));
}

#[test]
fn tcp_bad_range() {
    let mut reg = EntrypointRegistry::new();
    assert_eq!(reg.build_tcp_addr("ports"), Err(EntrypointError::BadPortRange));
    assert_eq!(reg.build_entrypoint(Protocol::Tcp, "", "d", "1:2"), Err(EntrypointError::BadPortRange));
}

#[test]
fn release_is_idempotent() {
    let mut reg = EntrypointRegistry::new();
    reg.build_entrypoint(Protocol::Http, "demo", "example.test", "").unwrap();
    reg.release("http://demo.example.test");
    reg.release("http://demo.example.test");
    reg.release("http://other.example.test");
    assert_eq!(reg.len(), 0);
    assert!(reg.build_http_host("demo", "example.test").is_ok());
}
