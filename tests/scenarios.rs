use rslocal::auth::SessionRegistry;
use rslocal::client::{done_body, local_target, local_write, register_body, working_body, ClientAction, LocalWrite, Tunnel};
use rslocal::config::Config;
use rslocal::http::{build_raw_request, parse_response_head, vhost_not_found, HttpServerInner, ResponseEvent, ResponseRelay};
use rslocal::relay::{request_reply, Delivery, RSLServer};
use rslocal::tcp::{event_plan, socket_write, SocketWrite, TcpPlan};
use rslocal::transport::{Connection, ListenParam};

fn settings(allow_ports: &str) -> Vec<(String, String)> {
    vec![
        ("core.debug".to_string(), "false".to_string()),
        ("core.bind_addr".to_string(), "127.0.0.1:8422".to_string()),
        ("core.auth_method".to_string(), "token".to_string()),
        ("core.allow_ports".to_string(), allow_ports.to_string()),
        ("http.bind_addr".to_string(), "127.0.0.1:8080".to_string()),
        ("http.default_domain".to_string(), "example.test".to_string()),
        ("tokens".to_string(), String::new()),
        ("tokens.alice".to_string(), "S".to_string()),
    ]
}

#[test]
fn single_http_get() {
    let cfg = Config::new(&settings("50000-50010")).unwrap();
    let mut sessions = SessionRegistry::new();
    let reply = sessions.login(&cfg.core.auth_method, &cfg.tokens, "S").unwrap();
    assert_eq!(reply.username, "alice");
    assert_eq!(sessions.check_auth(Some(reply.session_id.as_str())), Ok(()));

    let mut relay: RSLServer<u32> = RSLServer::new(cfg.clone());
    let (_, ep, ready) = relay.listen(&ListenParam { protocol: 0, subdomain: "demo".to_string() }).unwrap();
    assert_eq!((ready.action.as_str(), ready.message.as_str()), ("ready", "http://demo.example.test"));

    let mut front: HttpServerInner<u32> = HttpServerInner::new(cfg.http.clone());
    assert!(front.event_handler(&ep, 7, false));
    let chan = *front.vhost_match(Some("demo.example.test")).unwrap();
    let coming = relay.accept(Connection { id: "conn-1".to_string(), tx: chan }).unwrap();
    assert_eq!(coming.action, "coming");

    let client = Tunnel::new(reply);
    let target = local_target("9000");
    let conn_id = match client.on_notification(&coming, &target) {
        ClientAction::Spawn(id) => id,
        other => panic!("unexpected {:?}", other),
    };
    assert_eq!(relay.route(&register_body(&conn_id)), Ok(Delivery::OpenRequest));

    let headers = vec![("Host".to_string(), b"demo.example.test".to_vec())];
    let raw = build_raw_request("GET", "/ping", 1, 1, &headers, b"");
    let (msg, last) = request_reply(&conn_id, raw.clone());
    assert!(!last);
    assert_eq!(local_write(msg.req_data), LocalWrite::Write(b"GET /ping HTTP/1.1\r\nHost: demo.example.test\r\n\r\n".to_vec()));
    let (end, last) = request_reply(&conn_id, Vec::new());
    assert!(last);
    assert_eq!(local_write(end.req_data), LocalWrite::HalfClose);

    let response = b"HTTP/1.1 200 OK\r\nContent-Length: 2\r\n\r\nok";
    let mut out = ResponseRelay::new();
    let data = match relay.route(&working_body(&conn_id, response).unwrap()) {
        Ok(Delivery::Data(d)) => d,
        other => panic!("unexpected {:?}", other),
    };
    match out.on_data(data) {
        ResponseEvent::Head { head, body } => {
            let parsed = parse_response_head(&head).unwrap();
            assert_eq!(parsed.status, 200);
            assert_eq!(parsed.headers, vec![("Content-Length".to_string(), b"2".to_vec())]);
            assert_eq!(body, b"ok".to_vec());
        }
        other => panic!("unexpected {:?}", other),
    }
    let fin = match relay.route(&done_body(&conn_id)) {
        Ok(Delivery::Done(d)) => d,
        other => panic!("unexpected {:?}", other),
    };
    assert_eq!(out.on_data(fin), ResponseEvent::End);
    assert_eq!(relay.close(&conn_id), Some(7));
}

#[test]
fn vhost_not_found_emits_no_coming() {
    let cfg = Config::new(&settings("50000-50010")).unwrap();
    let mut relay: RSLServer<u32> = RSLServer::new(cfg.clone());
    let (_, ep, _) = relay.listen(&ListenParam { protocol: 0, subdomain: "demo".to_string() }).unwrap();
    let mut front: HttpServerInner<u32> = HttpServerInner::new(cfg.http.clone());
    front.event_handler(&ep, 1, false);
    assert_eq!(front.vhost_match(Some("unknown.example.test")), None);
    let (status, body) = vhost_not_found();
    assert_eq!(status, 404);
    assert_eq!(body, b"vHost Not Found".to_vec());
    assert_eq!(relay.connection("unknown.example.test"), None);
}

#[test]
fn tcp_echo() {
    let cfg = Config::new(&settings("50000-50010")).unwrap();
    let mut relay: RSLServer<u32> = RSLServer::new(cfg);
    let (_, ep, ready) = relay.listen(&ListenParam { protocol: 1, subdomain: String::new() }).unwrap();
    assert_eq!(ready.message, "tcp://0.0.0.0:50000");
    assert_eq!(event_plan(&ep, false), Some(TcpPlan::Start("0.0.0.0:50000".to_string())));

    relay.accept(Connection { id: "t1".to_string(), tx: 3 }).unwrap();
    assert_eq!(relay.route(&register_body("t1")), Ok(Delivery::OpenRequest));
    let (msg, _) = request_reply("t1", b"hello\n".to_vec());
    let echoed = match local_write(msg.req_data) {
        LocalWrite::Write(d) => d,
        other => panic!("unexpected {:?}", other),
    };
    let back = match relay.route(&working_body("t1", &echoed).unwrap()) {
        Ok(Delivery::Data(d)) => d,
        other => panic!("unexpected {:?}", other),
    };
    assert_eq!(socket_write(back), SocketWrite::Write(b"hello\n".to_vec()));
    let fin = match relay.route(&done_body("t1")) {
        Ok(Delivery::Done(d)) => d,
        other => panic!("unexpected {:?}", other),
    };
    assert_eq!(socket_write(fin), SocketWrite::Close);
    relay.release(&ep);
    assert_eq!(event_plan(&ep, true), Some(TcpPlan::Stop("0.0.0.0:50000".to_string())));
}
