//! The TCP front-end logic: one listener per entrypoint, started on register
//! and stopped on release, and the framing of socket bytes.
use vstd::prelude::*;
use crate::http::{authority, entrypoint_host, url_host_port_of};
use crate::relay::{eof_marker, forwarded, is_eof};
use crate::transport::TStatus;
use crate::table::KeyedTable;

verus! {

/// Largest chunk read from an external socket at once.
pub const READ_CHUNK: usize = 49152;

/// What a register or release message asks of the TCP front-end.
#[derive(Clone, Debug, PartialEq, Eq)]
pub enum TcpPlan {
    /// Bind a listener on this address.
    Start(String),
    /// Stop the listener on this address.
    Stop(String),
}

/// What the front-end writes to an external socket for one response chunk.
#[derive(Clone, Debug, PartialEq, Eq)]
pub enum SocketWrite {
    /// The terminator: stop copying.
    Close,
    /// Bytes to write verbatim.
    Write(Vec<u8>),
}

/// The plan for a register (`released == false`) or release message for
/// `entrypoint`.
pub fn event_plan(entrypoint: &str, released: bool) -> (r: Option<TcpPlan>)
    ensures
        match url_host_port_of(entrypoint@) {
            Some((h, p)) => r is Some && if released {
                r->Some_0 is Stop && r->Some_0->Stop_0@ == authority(h, p)
            } else {
                r->Some_0 is Start && r->Some_0->Start_0@ == authority(h, p)
            },
            None => r is None,
        },
{
    match entrypoint_host(entrypoint) {
        Some(addr) => if released {
            Some(TcpPlan::Stop(addr))
        } else {
            Some(TcpPlan::Start(addr))
        },
        None => None,
    }
}

/// The message that a chunk read from an external socket becomes on the
/// request channel; an empty read ends the stream instead (see `end_of_stream`).
pub fn socket_chunk(buf: &[u8]) -> (r: Option<Vec<u8>>)
    ensures
        buf@.len() == 0 ==> r is None,
        buf@.len() > 0 ==> r is Some && r->Some_0@ == buf@,
{
    if buf.len() == 0 {
        return None;
    }
    let mut v: Vec<u8> = Vec::new();
    crate::text::extend_bytes(&mut v, buf);
    Some(v)
}

/// The message that ends a request stream: an empty chunk.
pub fn end_of_stream() -> (r: Vec<u8>)
    ensures
        r@.len() == 0,
{
    Vec::new()
}

/// What to write to the external socket for one response chunk.
pub fn socket_write(data: Vec<u8>) -> (r: SocketWrite)
    ensures
        data@ == eof_marker() ==> r == SocketWrite::Close,
        data@ != eof_marker() ==> r == SocketWrite::Write(data),
{
    if is_eof(data.as_slice()) {
        SocketWrite::Close
    } else {
        SocketWrite::Write(data)
    }
}

/// The running listeners: address to the signal that stops it.
pub struct TcpServer<C> {
    listeners: KeyedTable<C>,
}

impl<C> TcpServer<C> {
    /// The listener map is well formed.
    pub closed spec fn wf(&self) -> bool {
        self.listeners.wf()
    }

    /// Address to stop signal.
    pub closed spec fn listeners(&self) -> Map<Seq<char>, C> {
        self.listeners.view()
    }

    /// No listener.
    pub fn new() -> (r: Self)
        ensures
            r.wf(),
            r.listeners() == Map::<Seq<char>, C>::empty(),
    {
        TcpServer { listeners: KeyedTable::new() }
    }

    /// Records the stop signal of the listener started on `addr`.
    pub fn start(&mut self, addr: String, cancel: C)
        requires
            old(self).wf(),
        ensures
            final(self).wf(),
            final(self).listeners() == old(self).listeners().insert(addr@, cancel),
    {
        self.listeners.insert(addr, cancel)
    }

    /// Takes the stop signal of the listener on `addr`, if one runs.
    pub fn stop(&mut self, addr: &str) -> (r: Option<C>)
        requires
            old(self).wf(),
        ensures
            final(self).wf(),
            final(self).listeners() == old(self).listeners().remove(addr@),
            match r {
                Some(c) => old(self).listeners().contains_key(addr@) && old(self).listeners()[addr@] == c,
                None => !old(self).listeners().contains_key(addr@),
            },
    {
        self.listeners.remove(addr)
    }
}

/// The bytes of `chunks`, in order.
pub open spec fn flatten(chunks: Seq<Seq<u8>>) -> Seq<u8>
    decreases chunks.len(),
{
    if chunks.len() == 0 {
        Seq::empty()
    } else {
        chunks[0] + flatten(chunks.drop_first())
    }
}

/// The request messages that the relay forwards to the client, as
/// `request_reply` frames them: each message up to and including the first
/// empty one, which ends the request.
pub open spec fn relayed_requests(msgs: Seq<Seq<u8>>) -> Seq<Seq<u8>>
    decreases msgs.len(),
{
    if msgs.len() == 0 {
        Seq::empty()
    } else if msgs[0].len() == 0 {
        seq![msgs[0]]
    } else {
        seq![msgs[0]] + relayed_requests(msgs.drop_first())
    }
}

/// What the local target receives from a sequence of request replies, as
/// `local_write` directs: the bytes of each reply before the first empty one.
pub open spec fn local_received(replies: Seq<Seq<u8>>) -> Seq<u8>
    decreases replies.len(),
{
    if replies.len() == 0 {
        Seq::empty()
    } else if replies[0].len() == 0 {
        Seq::empty()
    } else {
        replies[0] + local_received(replies.drop_first())
    }
}

/// Whether the replies contain the empty one that half-closes the local
/// connection.
pub open spec fn half_closed(replies: Seq<Seq<u8>>) -> bool {
    exists|i: int| 0 <= i < replies.len() && (#[trigger] replies[i]).len() == 0
}

/// What the external socket receives from a sequence of response chunks, as
/// `socket_write` directs: each chunk before the terminator.
pub open spec fn socket_received(chunks: Seq<Seq<u8>>) -> Seq<u8>
    decreases chunks.len(),
{
    if chunks.len() == 0 {
        Seq::empty()
    } else if chunks[0] == eof_marker() {
        Seq::empty()
    } else {
        chunks[0] + socket_received(chunks.drop_first())
    }
}

/// Request bytes cross the tunnel intact: the non-empty reads of an external
/// socket, then its end of stream, reach the local target as exactly the
/// same bytes in the same order, and the local connection is half-closed.
pub proof fn lemma_request_round_trip(reads: Seq<Seq<u8>>)
    requires
        forall|i: int| 0 <= i < reads.len() ==> (#[trigger] reads[i]).len() > 0,
    ensures
        local_received(relayed_requests(reads.push(Seq::empty()))) == flatten(reads),
        half_closed(relayed_requests(reads.push(Seq::empty()))),
    decreases reads.len(),
{
    let msgs = reads.push(Seq::empty());
    if reads.len() == 0 {
        assert(relayed_requests(msgs) == seq![Seq::<u8>::empty()]);
        assert(relayed_requests(msgs)[0].len() == 0);
    } else {
        let rest = reads.drop_first();
        assert(msgs.drop_first() =~= rest.push(Seq::empty()));
        assert(msgs[0] == reads[0]);
        lemma_request_round_trip(rest);
        let tail = relayed_requests(rest.push(Seq::empty()));
        let all = relayed_requests(msgs);
        assert(all == seq![reads[0]] + tail);
        assert(all.drop_first() =~= tail);
        assert(all[0] == reads[0]);
        let i = choose|i: int| 0 <= i < tail.len() && (#[trigger] tail[i]).len() == 0;
        assert(all[i + 1] == tail[i]);
    }
}

/// Response bytes cross the tunnel intact: the non-empty reads of the local
/// connection, then the terminator, reach the external socket as exactly the
/// same bytes in the same order. A read that is itself the terminator's
/// three bytes would end the stream early, so such reads are excluded.
pub proof fn lemma_response_round_trip(reads: Seq<Seq<u8>>)
    requires
        forall|i: int| 0 <= i < reads.len() ==> (#[trigger] reads[i]).len() > 0 && reads[i] != eof_marker(),
    ensures
        socket_received(reads.push(eof_marker())) == flatten(reads),
    decreases reads.len(),
{
    let chunks = reads.push(eof_marker());
    if reads.len() > 0 {
        let rest = reads.drop_first();
        assert(chunks.drop_first() =~= rest.push(eof_marker()));
        assert(chunks[0] == reads[0]);
        lemma_response_round_trip(rest);
    }
}

/// What the client sends on a transfer stream for the reads `reads` of its
/// local connection, as `(status, data)`: one `Working` message per read
/// (`working_body`), then one empty `Done` (`done_body`).
pub open spec fn framed_responses(reads: Seq<Seq<u8>>) -> Seq<(i32, Seq<u8>)> {
    reads.map_values(|r: Seq<u8>| (TStatus::Working.spec_code(), r)).push((TStatus::Done.spec_code(), Seq::empty()))
}

/// What the relay forwards to the front-end for a connection's messages,
/// as `route` decides for a live connection.
pub open spec fn relayed_responses(msgs: Seq<(i32, Seq<u8>)>) -> Seq<Seq<u8>>
    decreases msgs.len(),
{
    if msgs.len() == 0 {
        Seq::empty()
    } else {
        let rest = relayed_responses(msgs.drop_last());
        match forwarded(true, msgs.last().0, msgs.last().1) {
            Some(b) => rest.push(b),
            None => rest,
        }
    }
}

proof fn lemma_relay_working(reads: Seq<Seq<u8>>)
    ensures
        relayed_responses(reads.map_values(|r: Seq<u8>| (TStatus::Working.spec_code(), r))) == reads,
    decreases reads.len(),
{
    let msgs = reads.map_values(|r: Seq<u8>| (TStatus::Working.spec_code(), r));
    if reads.len() > 0 {
        assert(msgs.drop_last() =~= reads.drop_last().map_values(|r: Seq<u8>| (TStatus::Working.spec_code(), r)));
        lemma_relay_working(reads.drop_last());
        assert(reads.drop_last().push(reads.last()) =~= reads);
    } else {
        assert(reads =~= Seq::<Seq<u8>>::empty());
    }
}

/// TCP round trip, both directions: the bytes `x` that the public client
/// sends (read as `x_reads`) reach the local target exactly, followed by a
/// half-close; the bytes `y` that the local target sends (read as `y_reads`)
/// are framed by the client, forwarded by the relay and written to the public
/// client exactly. A read that is itself the terminator's three bytes would
/// end the response early, so such reads are excluded.
pub proof fn lemma_tcp_round_trip(x_reads: Seq<Seq<u8>>, y_reads: Seq<Seq<u8>>)
    requires
        forall|i: int| 0 <= i < x_reads.len() ==> (#[trigger] x_reads[i]).len() > 0,
        forall|i: int| 0 <= i < y_reads.len() ==> (#[trigger] y_reads[i]).len() > 0 && y_reads[i] != eof_marker(),
    ensures
        local_received(relayed_requests(x_reads.push(Seq::empty()))) == flatten(x_reads),
        half_closed(relayed_requests(x_reads.push(Seq::empty()))),
        socket_received(relayed_responses(framed_responses(y_reads))) == flatten(y_reads),
{
    lemma_request_round_trip(x_reads);
    let working = y_reads.map_values(|r: Seq<u8>| (TStatus::Working.spec_code(), r));
    lemma_relay_working(y_reads);
    let msgs = framed_responses(y_reads);
    assert(msgs.drop_last() =~= working);
    assert(relayed_responses(msgs) == y_reads.push(eof_marker()));
    lemma_response_round_trip(y_reads);
}

} // verus!
