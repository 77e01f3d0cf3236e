//! The messages of the RPC surface and the values handed between the relay
//! core and the front-ends.
use vstd::prelude::*;

verus! {

/// The kind of public endpoint a client asks for.
#[derive(Clone, Copy, Debug, PartialEq, Eq, Structural)]
pub enum Protocol {
    Http,
    Tcp,
}

impl Protocol {
    /// The wire number of this protocol.
    pub open spec fn spec_code(self) -> i32 {
        match self {
            Protocol::Http => 0,
            Protocol::Tcp => 1,
        }
    }

    /// Decodes a wire number.
    pub fn from_i32(v: i32) -> (r: Option<Protocol>)
        ensures
            v == 0 ==> r == Some(Protocol::Http),
            v == 1 ==> r == Some(Protocol::Tcp),
            v != 0 && v != 1 ==> r is None,
    {
        if v == 0 {
            Some(Protocol::Http)
        } else if v == 1 {
            Some(Protocol::Tcp)
        } else {
            None
        }
    }

    /// Encodes this protocol as its wire number.
    pub fn code(&self) -> (r: i32)
        ensures
            r == self.spec_code(),
    {
        match self {
            Protocol::Http => 0,
            Protocol::Tcp => 1,
        }
    }
}

/// The status a client attaches to each message of a transfer stream.
#[derive(Clone, Copy, Debug, PartialEq, Eq, Structural)]
pub enum TStatus {
    Ready,
    Working,
    Done,
}

impl TStatus {
    /// The wire number of this status.
    pub open spec fn spec_code(self) -> i32 {
        match self {
            TStatus::Ready => 0,
            TStatus::Working => 1,
            TStatus::Done => 2,
        }
    }

    /// Decodes a wire number.
    pub fn from_i32(v: i32) -> (r: Option<TStatus>)
        ensures
            v == 0 ==> r == Some(TStatus::Ready),
            v == 1 ==> r == Some(TStatus::Working),
            v == 2 ==> r == Some(TStatus::Done),
            (v < 0 || v > 2) ==> r is None,
    {
        if v == 0 {
            Some(TStatus::Ready)
        } else if v == 1 {
            Some(TStatus::Working)
        } else if v == 2 {
            Some(TStatus::Done)
        } else {
            None
        }
    }

    /// Encodes this status as its wire number.
    pub fn code(&self) -> (r: i32)
        ensures
            r == self.spec_code(),
    {
        match self {
            TStatus::Ready => 0,
            TStatus::Working => 1,
            TStatus::Done => 2,
        }
    }
}

/// `User.login` request.
#[derive(Clone, Debug, PartialEq, Eq)]
pub struct LoginBody {
    pub token: String,
}

/// `User.login` reply.
#[derive(Clone, Debug, PartialEq, Eq)]
pub struct LoginReply {
    pub session_id: String,
    pub username: String,
}

/// `Tunnel.listen` request.
#[derive(Clone, Debug, PartialEq, Eq)]
pub struct ListenParam {
    pub protocol: i32,
    pub subdomain: String,
}

/// One element of the `Tunnel.listen` stream.
#[derive(Clone, Debug, PartialEq, Eq)]
pub struct ListenNotification {
    pub action: String,
    pub message: String,
}

/// Client to server message of a transfer stream.
#[derive(Clone, Debug, PartialEq, Eq)]
pub struct TransferBody {
    pub conn_id: String,
    pub status: i32,
    pub resp_data: Vec<u8>,
}

/// Server to client message of a transfer stream.
#[derive(Clone, Debug, PartialEq, Eq)]
pub struct TransferReply {
    pub conn_id: String,
    pub req_data: Vec<u8>,
}

/// Sent from the relay core to a front-end: register `entrypoint` and deliver
/// its connections on `tx`, or release it (when `tx` is already closed).
#[derive(Clone, Debug)]
pub struct Payload<S> {
    pub tx: S,
    pub entrypoint: String,
}

/// One accepted external connection (an HTTP request or a TCP socket).
#[derive(Clone, Debug)]
pub struct Connection<S> {
    pub id: String,
    pub tx: S,
}

/// What a front-end receives on a connection's channel: once, first, the
/// channel for request bytes; then chunks of response bytes.
#[derive(Clone, Debug)]
pub enum XData<S> {
    TX(S),
    Data(Vec<u8>),
}

} // verus!
