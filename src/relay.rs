//! The relay core on the server: entrypoint allocation for `listen`, the
//! connection map, and the dispatch of `transfer` messages.
use vstd::prelude::*;
use vstd::string::*;
use crate::auth::AuthError;
use crate::config::Config;
use crate::entrypoint::{grants, refuses, EntrypointError, EntrypointRegistry};
use crate::table::KeyedTable;
use crate::transport::{Connection, ListenNotification, ListenParam, Protocol, TStatus, TransferBody, TransferReply};

verus! {

/// Capacity of every channel between tasks.
pub const CHANNEL_CAPACITY: usize = 128;

/// Action of the first notification of a `listen` stream.
pub const ACTION_READY: &'static str = "ready";

/// Action of the notification of a new external connection.
pub const ACTION_COMING: &'static str = "coming";

/// The reserved payload that ends a connection's response stream.
pub open spec fn eof_marker() -> Seq<u8> {
    seq![69u8, 79u8, 70u8]
}

/// The status codes with which calls fail.
#[derive(Clone, Copy, Debug, PartialEq, Eq, Structural)]
pub enum Code {
    InvalidArgument,
    Unauthenticated,
    AlreadyExists,
    Internal,
    Unimplemented,
}

/// Why a relay operation failed.
#[derive(Clone, Copy, Debug, PartialEq, Eq, Structural)]
pub enum RelayError {
    /// The protocol number of a `listen` call is unknown.
    UnknownProtocol,
    /// No entrypoint could be allocated.
    Entrypoint(EntrypointError),
    /// A transfer message names no live connection.
    UnknownConnection,
    /// A transfer message carries an unknown status.
    BadStatus,
}

/// The status code of an authentication failure.
pub fn auth_code(e: AuthError) -> (r: Code)
    ensures
        e == AuthError::InvalidToken ==> r == Code::InvalidArgument,
        e == AuthError::NotImplemented ==> r == Code::Unimplemented,
        (e == AuthError::MissingSession || e == AuthError::InvalidSession) ==> r == Code::Unauthenticated,
        e == AuthError::SessionIdTaken ==> r == Code::Internal,
{
    match e {
        AuthError::InvalidToken => Code::InvalidArgument,
        AuthError::NotImplemented => Code::Unimplemented,
        AuthError::MissingSession => Code::Unauthenticated,
        AuthError::InvalidSession => Code::Unauthenticated,
        AuthError::SessionIdTaken => Code::Internal,
    }
}

/// The status code of a relay failure.
pub fn relay_code(e: RelayError) -> (r: Code)
    ensures
        e == RelayError::UnknownProtocol ==> r == Code::InvalidArgument,
        e == RelayError::Entrypoint(EntrypointError::AlreadyExists) ==> r == Code::AlreadyExists,
        e == RelayError::Entrypoint(EntrypointError::NoFreePort) ==> r == Code::Internal,
        e == RelayError::Entrypoint(EntrypointError::BadPortRange) ==> r == Code::Internal,
        (e == RelayError::UnknownConnection || e == RelayError::BadStatus) ==> r == Code::InvalidArgument,
{
    match e {
        RelayError::UnknownProtocol => Code::InvalidArgument,
        RelayError::Entrypoint(EntrypointError::AlreadyExists) => Code::AlreadyExists,
        RelayError::Entrypoint(_) => Code::Internal,
        RelayError::UnknownConnection => Code::InvalidArgument,
        RelayError::BadStatus => Code::InvalidArgument,
    }
}

/// What the relay does with one inbound transfer message.
#[derive(Clone, Debug, PartialEq, Eq)]
pub enum Delivery {
    /// The client is ready: hand the front-end a channel for request bytes.
    OpenRequest,
    /// Forward response bytes to the front-end.
    Data(Vec<u8>),
    /// Forward the terminator to the front-end and end the exchange.
    Done(Vec<u8>),
}

/// The `ready` notification for `entrypoint`.
pub fn ready_notification(entrypoint: &str) -> (r: ListenNotification)
    ensures
        r.action@ == ACTION_READY@,
        r.message@ == entrypoint@,
{
    ListenNotification { action: ACTION_READY.to_owned(), message: entrypoint.to_owned() }
}

/// The `coming` notification for connection `conn_id`.
pub fn coming_notification(conn_id: &str) -> (r: ListenNotification)
    ensures
        r.action@ == ACTION_COMING@,
        r.message@ == conn_id@,
{
    ListenNotification { action: ACTION_COMING.to_owned(), message: conn_id.to_owned() }
}

/// The terminator of a response stream.
pub fn eof() -> (r: Vec<u8>)
    ensures
        r@ == eof_marker(),
{
    vec![69u8, 79u8, 70u8]
}

/// Whether `data` is the terminator of a response stream.
pub fn is_eof(data: &[u8]) -> (r: bool)
    ensures
        r == (data@ == eof_marker()),
{
    let r = data.len() == 3 && data[0] == 69u8 && data[1] == 79u8 && data[2] == 70u8;
    assert(r ==> data@ =~= eof_marker());
    r
}

/// One request chunk drained from a front-end, framed for the client. An
/// empty chunk ends the request: it yields the final empty reply and `true`.
pub fn request_reply(conn_id: &str, chunk: Vec<u8>) -> (r: (TransferReply, bool))
    ensures
        r.0.conn_id@ == conn_id@,
        r.0.req_data@ == chunk@,
        r.1 == (chunk@.len() == 0),
{
    let last = chunk.len() == 0;
    (TransferReply { conn_id: conn_id.to_owned(), req_data: chunk }, last)
}

/// Decides what an inbound transfer message means, given whether its
/// connection is known.
pub fn decide_transfer(known: bool, body: &TransferBody) -> (r: Result<Delivery, RelayError>)
    ensures
        !known ==> r == Err::<Delivery, RelayError>(RelayError::UnknownConnection),
        known && body.status == TStatus::Ready.spec_code() ==> r == Ok::<Delivery, RelayError>(Delivery::OpenRequest),
        known && body.status == TStatus::Working.spec_code() ==> r is Ok && r->Ok_0 is Data
            && r->Ok_0->Data_0@ == body.resp_data@,
        known && body.status == TStatus::Done.spec_code() ==> r is Ok && r->Ok_0 is Done
            && r->Ok_0->Done_0@ == eof_marker(),
        known && (body.status < 0 || body.status > 2) ==> r == Err::<Delivery, RelayError>(RelayError::BadStatus),
{
    if !known {
        return Err(RelayError::UnknownConnection);
    }
    match TStatus::from_i32(body.status) {
        Some(TStatus::Ready) => Ok(Delivery::OpenRequest),
        Some(TStatus::Working) => Ok(Delivery::Data(body.resp_data.clone())),
        Some(TStatus::Done) => Ok(Delivery::Done(eof())),
        None => Err(RelayError::BadStatus),
    }
}

/// The server's relay state: the entrypoints owned by live clients and the
/// external connections awaiting or in transfer, keyed by connection id.
pub struct RSLServer<S> {
    cfg: Config,
    entrypoints: EntrypointRegistry,
    conns: KeyedTable<S>,
}

impl<S> RSLServer<S> {
    /// The connection map is well formed.
    pub closed spec fn wf(&self) -> bool {
        self.conns.wf()
    }

    /// The configuration the relay runs with.
    pub closed spec fn config(&self) -> Config {
        self.cfg
    }

    /// The owned entrypoints.
    pub closed spec fn owned(&self) -> Set<Seq<char>> {
        self.entrypoints@
    }

    /// The live connections.
    pub closed spec fn connections(&self) -> Map<Seq<char>, S> {
        self.conns.view()
    }

    /// A relay with no client.
    pub fn new(cfg: Config) -> (r: Self)
        ensures
            r.wf(),
            r.config() == cfg,
            r.owned() == Set::<Seq<char>>::empty(),
            r.connections() == Map::<Seq<char>, S>::empty(),
    {
        RSLServer { cfg, entrypoints: EntrypointRegistry::new(), conns: KeyedTable::new() }
    }

    /// Starts a `listen` call: allocates the client's entrypoint and returns
    /// the protocol, the entrypoint and the `ready` notification to emit first.
    pub fn listen(&mut self, lp: &ListenParam) -> (r: Result<(Protocol, String, ListenNotification), RelayError>)
        requires
            old(self).wf(),
        ensures
            final(self).wf(),
            final(self).config() == old(self).config(),
            final(self).connections() == old(self).connections(),
            lp.protocol != 0 && lp.protocol != 1 ==> r == Err::<(Protocol, String, ListenNotification), RelayError>(
                RelayError::UnknownProtocol),
            match r {
                Ok((p, k, n)) => {
                    &&& p.spec_code() == lp.protocol
                    &&& grants(old(self).owned(), p, lp.subdomain@, old(self).config().http.default_domain@,
                        old(self).config().core.allow_ports@, k@)
                    &&& final(self).owned() == old(self).owned().insert(k@)
                    &&& n.action@ == ACTION_READY@
                    &&& n.message@ == k@
                },
                Err(e) => {
                    &&& final(self).owned() == old(self).owned()
                    &&& (lp.protocol == 0 || lp.protocol == 1) ==> e is Entrypoint && refuses(old(self).owned(),
                        if lp.protocol == 0 { Protocol::Http } else { Protocol::Tcp }, lp.subdomain@,
                        old(self).config().http.default_domain@, old(self).config().core.allow_ports@, e->Entrypoint_0)
                },
            },
    {
        let protocol = match Protocol::from_i32(lp.protocol) {
            Some(p) => p,
            None => return Err(RelayError::UnknownProtocol),
        };
        match self.entrypoints.build_entrypoint(
            protocol,
            lp.subdomain.as_str(),
            self.cfg.http.default_domain.as_str(),
            self.cfg.core.allow_ports.as_str(),
        ) {
            Ok(k) => {
                let n = ready_notification(k.as_str());
                Ok((protocol, k, n))
            },
            Err(e) => Err(RelayError::Entrypoint(e)),
        }
    }

    /// The client of `entrypoint` went away: release it.
    pub fn release(&mut self, entrypoint: &str)
        requires
            old(self).wf(),
        ensures
            final(self).wf(),
            final(self).config() == old(self).config(),
            final(self).connections() == old(self).connections(),
            final(self).owned() == old(self).owned().remove(entrypoint@),
    {
        self.entrypoints.release(entrypoint)
    }

    /// The configuration the relay runs with.
    pub fn cfg(&self) -> (r: &Config)
        ensures
            *r == self.config(),
    {
        &self.cfg
    }

    /// Whether `entrypoint` is owned by a live client.
    pub fn is_owned(&self, entrypoint: &str) -> (r: bool)
        ensures
            r == self.owned().contains(entrypoint@),
    {
        self.entrypoints.contains(entrypoint)
    }

    /// A front-end surfaced a new connection: record it and return the
    /// `coming` notification for the client. A connection whose id is
    /// already live is handed back unrecorded, so ids stay unique.
    pub fn accept(&mut self, conn: Connection<S>) -> (r: Result<ListenNotification, Connection<S>>)
        requires
            old(self).wf(),
        ensures
            final(self).wf(),
            final(self).config() == old(self).config(),
            final(self).owned() == old(self).owned(),
            match r {
                Ok(n) => {
                    &&& !old(self).connections().contains_key(conn.id@)
                    &&& final(self).connections() == old(self).connections().insert(conn.id@, conn.tx)
                    &&& n.action@ == ACTION_COMING@
                    &&& n.message@ == conn.id@
                },
                Err(c) => {
                    &&& old(self).connections().contains_key(conn.id@)
                    &&& final(self).connections() == old(self).connections()
                    &&& c == conn
                },
            },
    {
        if self.conns.contains_key(conn.id.as_str()) {
            return Err(conn);
        }
        let n = coming_notification(conn.id.as_str());
        self.conns.insert(conn.id, conn.tx);
        Ok(n)
    }

    /// The front-end channel of connection `conn_id`.
    pub fn connection(&self, conn_id: &str) -> (r: Option<&S>)
        requires
            self.wf(),
        ensures
            match r {
                Some(s) => self.connections().contains_key(conn_id@) && self.connections()[conn_id@] == *s,
                None => !self.connections().contains_key(conn_id@),
            },
    {
        self.conns.get(conn_id)
    }

    /// Removes connection `conn_id` once its exchange is over.
    pub fn close(&mut self, conn_id: &str) -> (r: Option<S>)
        requires
            old(self).wf(),
        ensures
            final(self).wf(),
            final(self).config() == old(self).config(),
            final(self).owned() == old(self).owned(),
            final(self).connections() == old(self).connections().remove(conn_id@),
            match r {
                Some(s) => old(self).connections().contains_key(conn_id@) && old(self).connections()[conn_id@] == s,
                None => !old(self).connections().contains_key(conn_id@),
            },
    {
        self.conns.remove(conn_id)
    }

    /// Decides what an inbound transfer message means for its connection.
    pub fn route(&self, body: &TransferBody) -> (r: Result<Delivery, RelayError>)
        requires
            self.wf(),
        ensures
            !self.connections().contains_key(body.conn_id@) ==> r == Err::<Delivery, RelayError>(RelayError::UnknownConnection),
            self.connections().contains_key(body.conn_id@) ==> {
                &&& body.status == TStatus::Ready.spec_code() ==> r == Ok::<Delivery, RelayError>(Delivery::OpenRequest)
                &&& body.status == TStatus::Working.spec_code() ==> r is Ok && r->Ok_0 is Data
                    && r->Ok_0->Data_0@ == body.resp_data@
                &&& body.status == TStatus::Done.spec_code() ==> r is Ok && r->Ok_0 is Done
                    && r->Ok_0->Done_0@ == eof_marker()
                &&& (body.status < 0 || body.status > 2) ==> r == Err::<Delivery, RelayError>(RelayError::BadStatus)
            },
            delivered_bytes(r) == forwarded(self.connections().contains_key(body.conn_id@), body.status, body.resp_data@),
    {
        let known = self.conns.contains_key(body.conn_id.as_str());
        decide_transfer(known, body)
    }
}

/// Independence: recording or closing connection `a` leaves the channel of
/// every other connection `b` as it was, so bytes routed by connection id
/// never reach another connection.
pub proof fn lemma_connections_independent<S>(before: Map<Seq<char>, S>, a: Seq<char>, s: S, b: Seq<char>)
    requires
        a != b,
    ensures
        before.insert(a, s).contains_key(b) == before.contains_key(b),
        before.remove(a).contains_key(b) == before.contains_key(b),
        before.contains_key(b) ==> before.insert(a, s)[b] == before[b] && before.remove(a)[b] == before[b],
{
}

/// The bytes a routing outcome hands to the connection's front-end, if any.
pub open spec fn delivered_bytes(r: Result<Delivery, RelayError>) -> Option<Seq<u8>> {
    match r {
        Ok(Delivery::Data(d)) => Some(d@),
        Ok(Delivery::Done(d)) => Some(d@),
        _ => None,
    }
}

/// The bytes that a transfer message with `status` and `data` forwards to
/// its connection's front-end: the data of a `Working` message, the
/// terminator for `Done`, nothing otherwise or for an unknown connection.
pub open spec fn forwarded(known: bool, status: i32, data: Seq<u8>) -> Option<Seq<u8>> {
    if !known {
        None
    } else if status == TStatus::Working.spec_code() {
        Some(data)
    } else if status == TStatus::Done.spec_code() {
        Some(eof_marker())
    } else {
        None
    }
}

/// What connection `a` receives from a stream of transfer messages
/// `(conn_id, status, data)`, in order, while `live` are the live
/// connections.
pub open spec fn received_by(live: Set<Seq<char>>, msgs: Seq<(Seq<char>, i32, Seq<u8>)>, a: Seq<char>) -> Seq<Seq<u8>>
    decreases msgs.len(),
{
    if msgs.len() == 0 {
        Seq::empty()
    } else {
        let rest = received_by(live, msgs.drop_last(), a);
        let m = msgs.last();
        if m.0 == a && forwarded(live.contains(m.0), m.1, m.2) is Some {
            rest.push(forwarded(live.contains(m.0), m.1, m.2)->Some_0)
        } else {
            rest
        }
    }
}

/// The messages of `msgs` that name connection `a`, in order.
pub open spec fn messages_for(msgs: Seq<(Seq<char>, i32, Seq<u8>)>, a: Seq<char>) -> Seq<(Seq<char>, i32, Seq<u8>)>
    decreases msgs.len(),
{
    if msgs.len() == 0 {
        Seq::empty()
    } else {
        let rest = messages_for(msgs.drop_last(), a);
        if msgs.last().0 == a { rest.push(msgs.last()) } else { rest }
    }
}

/// Independence of interleaved connections: what connection `a` receives
/// from a stream that mixes messages of many connections is exactly what it
/// receives from `a`'s own messages alone, in the same order.
pub proof fn lemma_interleaving_independent(live: Set<Seq<char>>, msgs: Seq<(Seq<char>, i32, Seq<u8>)>, a: Seq<char>)
    ensures
        received_by(live, msgs, a) == received_by(live, messages_for(msgs, a), a),
        forall|i: int| 0 <= i < messages_for(msgs, a).len() ==> (#[trigger] messages_for(msgs, a)[i]).0 == a,
    decreases msgs.len(),
{
    if msgs.len() > 0 {
        lemma_interleaving_independent(live, msgs.drop_last(), a);
        let sub = messages_for(msgs.drop_last(), a);
        if msgs.last().0 == a {
            let all = sub.push(msgs.last());
            assert(all.drop_last() =~= sub);
            assert(all.last() == msgs.last());
            assert forall|i: int| 0 <= i < all.len() implies (#[trigger] all[i]).0 == a by {
                if i < sub.len() {
                    assert(all[i] == sub[i]);
                }
            }
        }
    }
}

} // verus!
