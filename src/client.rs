//! The client's demultiplexer: what to do with each `listen` notification,
//! and the framing of the bytes between a local connection and a transfer
//! stream.
use vstd::prelude::*;
use crate::relay::{ACTION_COMING, ACTION_READY};
use crate::text::{push_str, str_eq};
use crate::transport::{ListenNotification, LoginReply, TStatus, TransferBody};

verus! {

/// Host of every local target.
pub const LOCAL_HOST: &'static str = "127.0.0.1";

/// The report of a dropped control stream.
pub const DISCONNECT_REPORT: &'static str = "remote server disconnect";

/// What ended a client run.
#[derive(Clone, Debug, PartialEq, Eq)]
pub enum ClientError {
    /// The RPC server could not be reached.
    Connect(String),
    /// The control stream ended mid-flight.
    Disconnect(String),
    /// A call failed with a status: its code name and message.
    Status(String, String),
    /// Anything else.
    Other(String),
}

impl ClientError {
    /// The reason printed when the client exits.
    pub fn report(&self) -> (r: String)
        ensures
            match self {
                ClientError::Connect(m) => r@ == m@,
                ClientError::Disconnect(_) => r@ == DISCONNECT_REPORT@,
                ClientError::Status(code, message) => r@ == code@ + ": "@ + message@,
                ClientError::Other(m) => r@ == m@,
            },
    {
        match self {
            ClientError::Connect(m) => m.clone(),
            ClientError::Disconnect(_) => DISCONNECT_REPORT.to_owned(),
            ClientError::Status(code, message) => {
                let mut s = code.clone();
                push_str(&mut s, ": ");
                push_str(&mut s, message.as_str());
                s
            },
            ClientError::Other(m) => m.clone(),
        }
    }
}

/// How a client run ends when its `listen` stream stops: cleanly when the
/// server closed the stream, as a disconnect when the stream failed.
pub fn listen_ended(failure: Option<String>) -> (r: Result<(), ClientError>)
    ensures
        match failure {
            None => r is Ok,
            Some(m) => r is Err && r->Err_0 is Disconnect && r->Err_0->Disconnect_0@ == m@,
        },
{
    match failure {
        None => Ok(()),
        Some(m) => Err(ClientError::Disconnect(m)),
    }
}

/// What the client does with one notification.
#[derive(Clone, Debug, PartialEq, Eq)]
pub enum ClientAction {
    /// The tunnel is up: print these two lines.
    Announce(String, String),
    /// A new external connection: open a transfer for this connection id.
    Spawn(String),
    /// Anything else.
    Ignore,
}

/// What the client does with one chunk of request bytes.
#[derive(Clone, Debug, PartialEq, Eq)]
pub enum LocalWrite {
    /// Write the bytes to the local connection.
    Write(Vec<u8>),
    /// The request is complete: half-close the local connection.
    HalfClose,
}

/// The address of the local target on `port`.
pub fn local_target(port: &str) -> (r: String)
    ensures
        r@ == LOCAL_HOST@ + ":"@ + port@,
{
    let mut s = LOCAL_HOST.to_owned();
    push_str(&mut s, ":");
    push_str(&mut s, port);
    s
}

/// A client tunnel after login.
#[derive(Clone, Debug)]
pub struct Tunnel {
    pub user_info: LoginReply,
}

impl Tunnel {
    /// The tunnel of a logged-in user.
    pub fn new(user_info: LoginReply) -> (r: Self)
        ensures
            r.user_info == user_info,
    {
        Tunnel { user_info }
    }

    /// Reacts to one `listen` notification.
    pub fn on_notification(&self, n: &ListenNotification, target: &str) -> (r: ClientAction)
        ensures
            n.action@ == ACTION_READY@ ==> r is Announce
                && r->Announce_0@ == "Username: "@ + self.user_info.username@
                && r->Announce_1@ == "Forwarding: "@ + n.message@ + " => "@ + target@,
            n.action@ == ACTION_COMING@ ==> r is Spawn && r->Spawn_0@ == n.message@,
            n.action@ != ACTION_READY@ && n.action@ != ACTION_COMING@ ==> r is Ignore,
    {
        proof {
            reveal_strlit("ready");
            reveal_strlit("coming");
            assert(ACTION_READY@[0] != ACTION_COMING@[0]);
        }
        if str_eq(n.action.as_str(), ACTION_READY) {
            let mut user = "Username: ".to_owned();
            push_str(&mut user, self.user_info.username.as_str());
            let mut fwd = "Forwarding: ".to_owned();
            push_str(&mut fwd, n.message.as_str());
            push_str(&mut fwd, " => ");
            push_str(&mut fwd, target);
            ClientAction::Announce(user, fwd)
        } else if str_eq(n.action.as_str(), ACTION_COMING) {
            ClientAction::Spawn(n.message.clone())
        } else {
            ClientAction::Ignore
        }
    }
}

/// The message that registers a connection on its transfer stream.
pub fn register_body(conn_id: &str) -> (r: TransferBody)
    ensures
        r.conn_id@ == conn_id@,
        r.status == TStatus::Ready.spec_code(),
        r.resp_data@.len() == 0,
{
    TransferBody { conn_id: conn_id.to_owned(), status: TStatus::Ready.code(), resp_data: Vec::new() }
}

/// The message that carries bytes read from the local connection; an empty
/// read sends nothing.
pub fn working_body(conn_id: &str, buf: &[u8]) -> (r: Option<TransferBody>)
    ensures
        buf@.len() == 0 ==> r is None,
        buf@.len() > 0 ==> r is Some && r->Some_0.conn_id@ == conn_id@
            && r->Some_0.status == TStatus::Working.spec_code() && r->Some_0.resp_data@ == buf@,
{
    if buf.len() == 0 {
        return None;
    }
    let mut data: Vec<u8> = Vec::new();
    crate::text::extend_bytes(&mut data, buf);
    Some(TransferBody { conn_id: conn_id.to_owned(), status: TStatus::Working.code(), resp_data: data })
}

/// The message sent when the local connection reaches end of stream.
pub fn done_body(conn_id: &str) -> (r: TransferBody)
    ensures
        r.conn_id@ == conn_id@,
        r.status == TStatus::Done.spec_code(),
        r.resp_data@.len() == 0,
{
    TransferBody { conn_id: conn_id.to_owned(), status: TStatus::Done.code(), resp_data: Vec::new() }
}

/// What to do with request bytes that arrive on the transfer stream.
pub fn local_write(req_data: Vec<u8>) -> (r: LocalWrite)
    ensures
        req_data@.len() == 0 ==> r == LocalWrite::HalfClose,
        req_data@.len() > 0 ==> r == LocalWrite::Write(req_data),
{
    if req_data.len() == 0 {
        LocalWrite::HalfClose
    } else {
        LocalWrite::Write(req_data)
    }
}

} // verus!
