use rslocal::relay::eof;
use rslocal::tcp::{end_of_stream, event_plan, socket_chunk, socket_write, SocketWrite, TcpPlan, TcpServer, READ_CHUNK};

#[test]
fn plans_for_register_and_release() {
    assert_eq!(event_plan("tcp://0.0.0.0:50000", false), Some(TcpPlan::Start("0.0.0.0:50000".to_string())));
    assert_eq!(event_plan("tcp://0.0.0.0:50000", true), Some(TcpPlan::Stop("0.0.0.0:50000".to_string())));
    assert_eq!(event_plan("%%%", false), None);
}

#[test]
fn listeners_start_and_stop() {
    let mut s: TcpServer<u8> = TcpServer::new();
    s.start("0.0.0.0:50000".to_string(), 1);
    s.start("0.0.0.0:50001".to_string(), 2);
    assert_eq!(s.stop("0.0.0.0:50000"), Some(1));
    assert_eq!(s.stop("0.0.0.0:50000"), None);
    assert_eq!(s.stop("0.0.0.0:50001"), Some(2));
}

#[test]
fn socket_framing() {
    assert_eq!(READ_CHUNK, 48 * 1024);
    assert_eq!(socket_chunk(b"hello\n"), Some(b"hello\n".to_vec()));
    assert_eq!(socket_chunk(b""), None);
    assert!(end_of_stream().is_empty());
    assert_eq!(socket_write(b"hi".to_vec()), SocketWrite::Write(b"hi".to_vec()));
    assert_eq!(socket_write(eof()), SocketWrite::Close);
    assert_eq!(socket_write(Vec::new()), SocketWrite::Write(Vec::new()));
}
