use rslocal::auth::AuthError;
use rslocal::config::{Config, Core, HTTPConfig};
use rslocal::entrypoint::EntrypointError;
use rslocal::relay::{
    auth_code, decide_transfer, eof, is_eof, relay_code, request_reply, Code, Delivery, RelayError, RSLServer,
};
use rslocal::transport::{Connection, ListenParam, Protocol, TStatus, TransferBody};

fn config(allow_ports: &str) -> Config {
    Config {
        core: Core {
            debug: false,
            bind_addr: "127.0.0.1:8422".to_string(),
            auth_method: "token".to_string(),
            allow_ports: allow_ports.to_string(),
        },
        http: HTTPConfig { bind_addr: "127.0.0.1:80".to_string(), default_domain: "example.test".to_string() },
        tokens: vec![("alice".to_string(), "S".to_string())],
    }
}

fn body(conn_id: &str, status: i32, data: &[u8]) -> TransferBody {
    TransferBody { conn_id: conn_id.to_string(), status, resp_data: data.to_vec() }
}

#[test]
fn listen_emits_ready_first() {
    let mut srv: RSLServer<u32> = RSLServer::new(config("50000-50010"));
    let (p, ep, n) = srv.listen(&ListenParam { protocol: 0, subdomain: "demo".to_string() }).unwrap();
    assert_eq!(p, Protocol::Http);
    assert_eq!(ep, "http://demo.example.test");
    assert_eq!(n.action, "ready");
    assert_eq!(n.message, "http://demo.example.test");
    assert!(srv.is_owned(&ep));
}

#[test]
fn listen_rejects_unknown_protocol() {
    let mut srv: RSLServer<u32> = RSLServer::new(config("50000-50010"));
    let r = srv.listen(&ListenParam { protocol: 7, subdomain: String::new() });
    assert_eq!(r.unwrap_err(), RelayError::UnknownProtocol);
    assert_eq!(relay_code(RelayError::UnknownProtocol), Code::InvalidArgument);
}

#[test]
fn second_listen_same_subdomain_already_exists() {
    let mut srv: RSLServer<u32> = RSLServer::new(config("50000-50010"));
    let lp = ListenParam { protocol: 0, subdomain: "demo".to_string() };
    assert!(srv.listen(&lp).is_ok());
    let err = srv.listen(&lp).unwrap_err();
    assert_eq!(err, RelayError::Entrypoint(EntrypointError::AlreadyExists));
    assert_eq!(relay_code(err), Code::AlreadyExists);
}

#[test]
fn second_tcp_listen_on_exhausted_range_is_internal() {
    let mut srv: RSLServer<u32> = RSLServer::new(config("50000-50001"));
    let lp = ListenParam { protocol: 1, subdomain: String::new() };
    let (_, ep, _) = srv.listen(&lp).unwrap();
    assert_eq!(ep, "tcp://0.0.0.0:50000");
    let err = srv.listen(&lp).unwrap_err();
    assert_eq!(err, RelayError::Entrypoint(EntrypointError::NoFreePort));
    assert_eq!(relay_code(err), Code::Internal);
}

#[test]
fn disconnect_cleanup_frees_the_subdomain() {
    let mut srv: RSLServer<u32> = RSLServer::new(config("50000-50010"));
    let lp = ListenParam { protocol: 0, subdomain: "demo".to_string() };
    let (_, ep, _) = srv.listen(&lp).unwrap();
    srv.release(&ep);
    assert!(!srv.is_owned(&ep));
    let (_, again, _) = srv.listen(&lp).unwrap();
    assert_eq!(again, "http://demo.example.test");
}

#[test]
fn accept_records_connection_and_emits_coming() {
    let mut srv: RSLServer<u32> = RSLServer::new(config("50000-50010"));
    let n = srv.accept(Connection { id: "c1".to_string(), tx: 11 }).unwrap();
    assert_eq!(n.action, "coming");
    assert_eq!(n.message, "c1");
    srv.accept(Connection { id: "c2".to_string(), tx: 22 }).unwrap();
    assert_eq!(srv.connection("c1"), Some(&11));
    assert_eq!(srv.connection("c2"), Some(&22));
    let dup = srv.accept(Connection { id: "c2".to_string(), tx: 99 });
    assert_eq!(dup.unwrap_err().tx, 99);
    assert_eq!(srv.connection("c2"), Some(&22));
    assert_eq!(srv.close("c1"), Some(11));
    assert_eq!(srv.connection("c1"), None);
    assert_eq!(srv.connection("c2"), Some(&22));
}

#[test]
fn route_dispatches_on_status() {
    let mut srv: RSLServer<u32> = RSLServer::new(config("50000-50010"));
    srv.accept(Connection { id: "c1".to_string(), tx: 1 }).unwrap();
    assert_eq!(srv.route(&body("c1", 0, b"")), Ok(Delivery::OpenRequest));
    assert_eq!(srv.route(&body("c1", 1, b"abc")), Ok(Delivery::Data(b"abc".to_vec())));
    assert_eq!(srv.route(&body("c1", 1, b"")), Ok(Delivery::Data(Vec::new())));
    assert_eq!(srv.route(&body("c1", 2, b"")), Ok(Delivery::Done(b"EOF".to_vec())));
    assert_eq!(srv.route(&body("c1", 9, b"")), Err(RelayError::BadStatus));
    assert_eq!(srv.route(&body("zz", 1, b"x")), Err(RelayError::UnknownConnection));
    assert_eq!(decide_transfer(false, &body("c1", 0, b"")), Err(RelayError::UnknownConnection));
}

#[test]
fn request_chunks_and_terminator() {
    let (r, last) = request_reply("c1", b"GET".to_vec());
    assert_eq!(r.conn_id, "c1");
    assert_eq!(r.req_data, b"GET".to_vec());
    assert!(!last);
    let (r, last) = request_reply("c1", Vec::new());
    assert!(r.req_data.is_empty());
    assert!(last);
}

#[test]
fn eof_marker_bytes() {
    assert_eq!(eof(), b"EOF".to_vec());
    assert!(is_eof(b"EOF"));
    assert!(!is_eof(b"EOF\n"));
    assert!(!is_eof(b""));
    assert!(!is_eof(b"eof"));
}

#[test]
fn wire_numbers() {
    assert_eq!(Protocol::from_i32(0), Some(Protocol::Http));
    assert_eq!(Protocol::from_i32(1), Some(Protocol::Tcp));
    assert_eq!(Protocol::from_i32(2), None);
    assert_eq!(Protocol::Tcp.code(), 1);
    assert_eq!(TStatus::from_i32(0), Some(TStatus::Ready));
    assert_eq!(TStatus::from_i32(1), Some(TStatus::Working));
    assert_eq!(TStatus::from_i32(2), Some(TStatus::Done));
    assert_eq!(TStatus::from_i32(-1), None);
    assert_eq!(TStatus::from_i32(3), None);
    assert_eq!(TStatus::Done.code(), 2);
}

#[test]
fn status_codes_of_auth_errors() {
    assert_eq!(auth_code(AuthError::InvalidToken), Code::InvalidArgument);
    assert_eq!(auth_code(AuthError::MissingSession), Code::Unauthenticated);
    assert_eq!(auth_code(AuthError::InvalidSession), Code::Unauthenticated);
    assert_eq!(auth_code(AuthError::NotImplemented), Code::Unimplemented);
    assert_eq!(auth_code(AuthError::SessionIdTaken), Code::Internal);
    assert_eq!(relay_code(RelayError::Entrypoint(EntrypointError::BadPortRange)), Code::Internal);
}
