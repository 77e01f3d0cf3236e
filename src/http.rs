//! The HTTP front-end logic: virtual-host routing, the raw form of a request
//! sent down the tunnel, and the split of the response stream into a head
//! and a body.
use vstd::prelude::*;
use vstd::string::*;
use crate::config::HTTPConfig;
use crate::relay::{eof_marker, is_eof};
use crate::table::KeyedTable;
use crate::tcp::flatten;
use crate::text::{decimal, extend_bytes, push_decimal, push_str};

verus! {

/// Status of the reply to a request for an unknown virtual host.
pub const NOT_FOUND_STATUS: u16 = 404;

/// Status of the reply when the local target's response head cannot be parsed.
pub const BAD_GATEWAY_STATUS: u16 = 502;

/// Status of a response that arrives without a head.
pub const HEADLESS_STATUS: u16 = 200;

/// How far into a response the end of its head is looked for.
pub const HEAD_WINDOW: usize = 1024;

/// How many response headers the head parser accepts.
pub const HEADER_CAPACITY: usize = 64;

/// The body of the reply to a request for an unknown virtual host.
pub open spec fn not_found_body() -> Seq<u8> {
    "vHost Not Found"@.map_values(|c: char| c as u8)
}

/// `\r\n` as bytes.
pub open spec fn crlf() -> Seq<u8> {
    seq![13u8, 10u8]
}

/// The decimal digits of `n` as ASCII bytes.
pub open spec fn decimal_bytes(n: nat) -> Seq<u8> {
    decimal(n).map_values(|c: char| c as u8)
}

/// `<METHOD> <URI> HTTP/<major>.<minor>\r\n`
pub open spec fn request_line(method: Seq<u8>, uri: Seq<u8>, major: nat, minor: nat) -> Seq<u8> {
    method + seq![32u8] + uri + seq![32u8, 72u8, 84u8, 84u8, 80u8, 47u8] + decimal_bytes(major) + seq![46u8]
        + decimal_bytes(minor) + crlf()
}

/// Each header as `<Name>: <Value>\r\n`.
pub open spec fn header_lines(headers: Seq<(Seq<u8>, Seq<u8>)>) -> Seq<u8>
    decreases headers.len(),
{
    if headers.len() == 0 {
        Seq::empty()
    } else {
        header_lines(headers.drop_last()) + headers.last().0 + seq![58u8, 32u8] + headers.last().1 + crlf()
    }
}

/// The headers of a request, names as bytes.
pub open spec fn header_bytes(headers: Seq<(String, Vec<u8>)>) -> Seq<(Seq<u8>, Seq<u8>)> {
    headers.map_values(|h: (String, Vec<u8>)| (vstd::utf8::encode_utf8(h.0@), h.1@))
}

/// The raw form of a request: request line, header lines, a blank line and
/// the whole body.
pub open spec fn raw_request(
    method: Seq<u8>,
    uri: Seq<u8>,
    major: nat,
    minor: nat,
    headers: Seq<(Seq<u8>, Seq<u8>)>,
    body: Seq<u8>,
) -> Seq<u8> {
    request_line(method, uri, major, minor) + header_lines(headers) + crlf() + body
}

fn push_decimal_bytes(v: &mut Vec<u8>, n: u8)
    ensures
        final(v)@ == old(v)@ + decimal_bytes(n as nat),
{
    let mut s = String::new();
    push_decimal(&mut s, n as u32);
    let ghost d = s@;
    assert(d == decimal(n as nat));
    proof { lemma_decimal_ascii(n as nat); }
    let t = s.as_str();
    assert(is_ascii(t));
    proof { vstd::string::is_ascii_spec_bytes(t); }
    let b = t.as_bytes();
    assert(b@ =~= decimal_bytes(n as nat));
    extend_bytes(v, b);
}

proof fn lemma_decimal_ascii(n: nat)
    ensures
        vstd::utf8::is_ascii_chars(decimal(n)),
    decreases n,
{
    if n >= 10 {
        lemma_decimal_ascii(n / 10);
        assert forall|i: int| 0 <= i < decimal(n).len() implies '\0' <= #[trigger] decimal(n)[i] <= '\u{7f}' by {
            if i < decimal(n / 10).len() {
                assert(decimal(n)[i] == decimal(n / 10)[i]);
            }
        }
    }
}

/// Serialises a request for the tunnel.
pub fn build_raw_request(
    method: &str,
    uri: &str,
    major: u8,
    minor: u8,
    headers: &Vec<(String, Vec<u8>)>,
    body: &[u8],
) -> (r: Vec<u8>)
    ensures
        r@ == raw_request(
            method.spec_bytes(),
            uri.spec_bytes(),
            major as nat,
            minor as nat,
            header_bytes(headers@),
            body@,
        ),
{
    let mut out: Vec<u8> = Vec::new();
    extend_bytes(&mut out, method.as_bytes());
    out.push(32u8);
    extend_bytes(&mut out, uri.as_bytes());
    extend_bytes(&mut out, &[32u8, 72u8, 84u8, 84u8, 80u8, 47u8]);
    push_decimal_bytes(&mut out, major);
    out.push(46u8);
    push_decimal_bytes(&mut out, minor);
    out.push(13u8);
    out.push(10u8);
    assert(out@ =~= request_line(method.spec_bytes(), uri.spec_bytes(), major as nat, minor as nat));
    let ghost line = out@;
    let ghost hs = header_bytes(headers@);
    let mut i: usize = 0;
    assert(hs.subrange(0, 0) =~= Seq::<(Seq<u8>, Seq<u8>)>::empty());
    while i < headers.len()
        invariant
            i <= headers@.len(),
            hs == header_bytes(headers@),
            out@ == line + header_lines(hs.subrange(0, i as int)),
        decreases headers@.len() - i,
    {
        let ghost pre = hs.subrange(0, i + 1);
        assert(pre.drop_last() =~= hs.subrange(0, i as int));
        assert(pre.last() == hs[i as int]);
        extend_bytes(&mut out, headers[i].0.as_str().as_bytes());
        extend_bytes(&mut out, &[58u8, 32u8]);
        extend_bytes(&mut out, headers[i].1.as_slice());
        extend_bytes(&mut out, &[13u8, 10u8]);
        assert(out@ =~= line + header_lines(pre));
        i = i + 1;
    }
    assert(hs.subrange(0, i as int) =~= hs);
    extend_bytes(&mut out, &[13u8, 10u8]);
    extend_bytes(&mut out, body);
    out
}

/// A `\r\n\r\n` starts at `i` and ends within the first `HEAD_WINDOW` bytes.
pub open spec fn head_end_at(resp: Seq<u8>, i: int) -> bool {
    &&& 0 <= i
    &&& i + 4 <= resp.len()
    &&& i + 4 <= HEAD_WINDOW
    &&& resp[i] == 13u8 && resp[i + 1] == 10u8 && resp[i + 2] == 13u8 && resp[i + 3] == 10u8
}

/// Where the first `\r\n\r\n` of a response starts, looking only within its
/// first `HEAD_WINDOW` bytes.
pub fn find_head_end(resp: &[u8]) -> (r: Option<usize>)
    ensures
        match r {
            Some(i) => head_end_at(resp@, i as int) && forall|j: int| 0 <= j < i ==> !head_end_at(resp@, j),
            None => forall|j: int| !head_end_at(resp@, j),
        },
{
    let n = if resp.len() < HEAD_WINDOW { resp.len() } else { HEAD_WINDOW };
    if n < 4 {
        return None;
    }
    let mut i: usize = 0;
    while i + 4 <= n
        invariant
            i <= n,
            n <= resp@.len(),
            n <= HEAD_WINDOW,
            n == resp@.len() || n == HEAD_WINDOW,
            forall|j: int| 0 <= j < i ==> !head_end_at(resp@, j),
        decreases n - i,
    {
        if resp[i] == 13u8 && resp[i + 1] == 10u8 && resp[i + 2] == 13u8 && resp[i + 3] == 10u8 {
            return Some(i);
        }
        i = i + 1;
    }
    None
}

/// What the front-end does with one chunk of response bytes.
#[derive(Clone, Debug, PartialEq, Eq)]
pub enum ResponseEvent {
    /// The terminator: the response is complete.
    End,
    /// The first chunk, split after its head; `head` ends with `\r\n\r\n`.
    Head { head: Vec<u8>, body: Vec<u8> },
    /// The first chunk has no head within its window: all of it is body.
    Headless(Vec<u8>),
    /// A later chunk: all of it is body.
    Body(Vec<u8>),
}

/// The bytes of the response that an event hands on, head included.
pub open spec fn event_bytes(e: ResponseEvent) -> Seq<u8> {
    match e {
        ResponseEvent::End => Seq::empty(),
        ResponseEvent::Head { head, body } => head@ + body@,
        ResponseEvent::Headless(b) => b@,
        ResponseEvent::Body(b) => b@,
    }
}

/// Splits the response stream of one connection: the first chunk carries the
/// head, the terminator ends it.
pub struct ResponseRelay {
    started: bool,
    ended: bool,
    received: Ghost<Seq<u8>>,
    forwarded: Ghost<Seq<u8>>,
}

impl ResponseRelay {
    /// Bytes received from the client so far, terminator excluded.
    pub closed spec fn received(&self) -> Seq<u8> {
        self.received@
    }

    /// Bytes handed on so far, head and body.
    pub closed spec fn forwarded(&self) -> Seq<u8> {
        self.forwarded@
    }

    /// Whether the first chunk was seen.
    pub closed spec fn started(&self) -> bool {
        self.started
    }

    /// Whether the terminator was seen.
    pub closed spec fn ended(&self) -> bool {
        self.ended
    }

    /// What is handed on is exactly what was received.
    pub closed spec fn wf(&self) -> bool {
        self.received@ == self.forwarded@
    }

    /// A relay that has seen nothing.
    pub fn new() -> (r: Self)
        ensures
            r.wf(),
            !r.started(),
            !r.ended(),
            r.received() == Seq::<u8>::empty(),
    {
        ResponseRelay { started: false, ended: false, received: Ghost(Seq::empty()), forwarded: Ghost(Seq::empty()) }
    }

    /// Takes one chunk of response bytes.
    pub fn on_data(&mut self, data: Vec<u8>) -> (r: ResponseEvent)
        requires
            old(self).wf(),
            !old(self).ended(),
        ensures
            final(self).wf(),
            data@ == eof_marker() ==> r == ResponseEvent::End && final(self).ended()
                && final(self).received() == old(self).received(),
            data@ != eof_marker() ==> {
                &&& !final(self).ended()
                &&& final(self).started()
                &&& final(self).received() == old(self).received() + data@
                &&& event_bytes(r) == data@
                &&& old(self).started() ==> r == ResponseEvent::Body(data)
                &&& !old(self).started() ==> match r {
                    ResponseEvent::Head { head, body } => exists|i: int| head_end_at(data@, i)
                        && (forall|j: int| 0 <= j < i ==> !head_end_at(data@, j))
                        && head@ == data@.subrange(0, i + 4) && body@ == data@.subrange(i + 4, data@.len() as int),
                    ResponseEvent::Headless(b) => b@ == data@ && forall|j: int| !head_end_at(data@, j),
                    _ => false,
                }
            },
    {
        if is_eof(data.as_slice()) {
            self.ended = true;
            return ResponseEvent::End;
        }
        self.received = Ghost(self.received@ + data@);
        self.forwarded = Ghost(self.forwarded@ + data@);
        if self.started {
            return ResponseEvent::Body(data);
        }
        self.started = true;
        match find_head_end(data.as_slice()) {
            Some(i) => {
                let head = slice_to_vec(data.as_slice(), 0, i + 4);
                let body = slice_to_vec(data.as_slice(), i + 4, data.len());
                assert(head@ + body@ =~= data@);
                ResponseEvent::Head { head, body }
            },
            None => ResponseEvent::Headless(data),
        }
    }
}

/// Copies `s[from..to]`.
pub fn slice_to_vec(s: &[u8], from: usize, to: usize) -> (r: Vec<u8>)
    requires
        from <= to <= s@.len(),
    ensures
        r@ == s@.subrange(from as int, to as int),
{
    let mut out: Vec<u8> = Vec::new();
    let mut i: usize = from;
    while i < to
        invariant
            from <= i <= to <= s@.len(),
            out@ == s@.subrange(from as int, i as int),
        decreases to - i,
    {
        out.push(s[i]);
        i = i + 1;
        assert(out@ =~= s@.subrange(from as int, i as int));
    }
    out
}


/// A parsed response head: status code and headers in order.
#[derive(Clone, Debug, PartialEq, Eq)]
pub struct ResponseHead {
    pub status: u16,
    pub headers: Vec<(String, Vec<u8>)>,
}

/// Headers as `(name, value)` views.
pub open spec fn header_views(headers: Seq<(String, Vec<u8>)>) -> Seq<(Seq<char>, Seq<u8>)> {
    headers.map_values(|h: (String, Vec<u8>)| (h.0@, h.1@))
}

/// What httparse's `Response::parse` yields for a complete head, with room
/// for `capacity` headers: the status code and the headers.
pub uninterp spec fn response_head_of(head: Seq<u8>, capacity: nat) -> Option<(u16, Seq<(Seq<char>, Seq<u8>)>)>;

/// Relies on httparse's `Response::parse`: a complete head gives its status
/// code and headers; a partial or malformed one gives nothing.
#[verifier::external_body]
fn parse_head_bytes(head: &[u8], capacity: usize) -> (r: Option<(u16, Vec<(String, Vec<u8>)>)>)
    ensures
        match r {
            Some((code, hs)) => response_head_of(head@, capacity as nat) == Some((code, header_views(hs@))),
            None => response_head_of(head@, capacity as nat) is None,
        },
{
    let mut headers = vec![httparse::EMPTY_HEADER; capacity];
    let mut resp = httparse::Response::new(&mut headers);
    match resp.parse(head) {
        Ok(httparse::Status::Complete(_)) => resp.code.map(|code| {
            (code, resp.headers.iter().map(|h| (h.name.to_string(), h.value.to_vec())).collect())
        }),
        _ => None,
    }
}

/// Parses the head of a response from the local target.
pub fn parse_response_head(head: &[u8]) -> (r: Option<ResponseHead>)
    ensures
        match response_head_of(head@, HEADER_CAPACITY as nat) {
            Some((code, hs)) => r is Some && r->Some_0.status == code && header_views(r->Some_0.headers@) == hs,
            None => r is None,
        },
{
    match parse_head_bytes(head, HEADER_CAPACITY) {
        Some((status, headers)) => Some(ResponseHead { status, headers }),
        None => None,
    }
}

/// What the url crate reads from `s`: its host and its explicit port.
pub uninterp spec fn url_host_port_of(s: Seq<char>) -> Option<(Seq<char>, Option<u16>)>;

/// Relies on url's `Url::parse` with `host_str` and `port`: the host and the
/// port written in `s`, or nothing when `s` is no URL with a host.
#[verifier::external_body]
fn url_host_port(s: &str) -> (r: Option<(String, Option<u16>)>)
    ensures
        match r {
            Some((h, p)) => url_host_port_of(s@) == Some((h@, p)),
            None => url_host_port_of(s@) is None,
        },
{
    let u = url::Url::parse(s).ok()?;
    let host = u.host_str()?.to_string();
    Some((host, u.port()))
}

/// `host` or `host:port`.
pub open spec fn authority(host: Seq<char>, port: Option<u16>) -> Seq<char> {
    match port {
        Some(p) => host + ":"@ + decimal(p as nat),
        None => host,
    }
}

/// The `host[:port]` of an entrypoint URL, the key under which a front-end
/// serves it.
pub fn entrypoint_host(entrypoint: &str) -> (r: Option<String>)
    ensures
        match url_host_port_of(entrypoint@) {
            Some((h, p)) => r is Some && r->Some_0@ == authority(h, p),
            None => r is None,
        },
{
    match url_host_port(entrypoint) {
        Some((host, port)) => {
            let mut key = host;
            match port {
                Some(p) => {
                    push_str(&mut key, ":");
                    push_decimal(&mut key, p as u32);
                },
                None => {},
            }
            Some(key)
        },
        None => None,
    }
}

/// The value stored for `host`.
pub fn get_site_host<'a, S>(sites: &'a KeyedTable<S>, host: &str) -> (r: Option<&'a S>)
    requires
        sites.wf(),
    ensures
        match r {
            Some(s) => sites.view().contains_key(host@) && sites.view()[host@] == *s,
            None => !sites.view().contains_key(host@),
        },
{
    sites.get(host)
}

/// Registers `host` unless it is taken; says whether it was registered.
pub fn setup_site_host<S>(sites: &mut KeyedTable<S>, host: String, otx: S) -> (r: bool)
    requires
        old(sites).wf(),
    ensures
        final(sites).wf(),
        r == !old(sites).view().contains_key(host@),
        r ==> final(sites).view() == old(sites).view().insert(host@, otx),
        !r ==> final(sites).view() == old(sites).view(),
{
    if sites.contains_key(host.as_str()) {
        return false;
    }
    sites.insert(host, otx);
    true
}

/// Removes `host`.
pub fn remove_site_host<S>(sites: &mut KeyedTable<S>, host: &str)
    requires
        old(sites).wf(),
    ensures
        final(sites).wf(),
        final(sites).view() == old(sites).view().remove(host@),
{
    let _ = sites.remove(host);
}

/// The HTTP front-end's routing state: virtual host to the channel of the
/// client that owns it.
pub struct HttpServerInner<S> {
    cfg: HTTPConfig,
    vhosts: KeyedTable<S>,
}

impl<S> HttpServerInner<S> {
    /// The virtual-host map is well formed.
    pub closed spec fn wf(&self) -> bool {
        self.vhosts.wf()
    }

    /// The settings of the listener.
    pub closed spec fn config(&self) -> HTTPConfig {
        self.cfg
    }

    /// The settings of the listener.
    pub fn cfg(&self) -> (r: &HTTPConfig)
        ensures
            *r == self.config(),
    {
        &self.cfg
    }

    /// Virtual host to channel.
    pub closed spec fn vhosts(&self) -> Map<Seq<char>, S> {
        self.vhosts.view()
    }

    /// A front-end with no virtual host.
    pub fn new(cfg: HTTPConfig) -> (r: Self)
        ensures
            r.wf(),
            r.config() == cfg,
            r.vhosts() == Map::<Seq<char>, S>::empty(),
    {
        HttpServerInner { cfg, vhosts: KeyedTable::new() }
    }

    /// Applies a register or release message for `entrypoint`: `released`
    /// tells whether the message's channel was already closed.
    pub fn event_handler(&mut self, entrypoint: &str, tx: S, released: bool) -> (r: bool)
        requires
            old(self).wf(),
        ensures
            final(self).wf(),
            final(self).config() == old(self).config(),
            r == url_host_port_of(entrypoint@) is Some,
            match url_host_port_of(entrypoint@) {
                Some((h, p)) => if released {
                    final(self).vhosts() == old(self).vhosts().remove(authority(h, p))
                } else {
                    final(self).vhosts() == old(self).vhosts().insert(authority(h, p), tx)
                },
                None => final(self).vhosts() == old(self).vhosts(),
            },
    {
        let host = match entrypoint_host(entrypoint) {
            Some(h) => h,
            None => return false,
        };
        if released {
            let _ = self.vhosts.remove(host.as_str());
        } else {
            self.vhosts.insert(host, tx);
        }
        true
    }

    /// The channel serving the request's `Host` header; a request without
    /// one matches nothing.
    pub fn vhost_match(&self, host: Option<&str>) -> (r: Option<&S>)
        requires
            self.wf(),
        ensures
            match host {
                None => r is None,
                Some(h) => match r {
                    Some(s) => self.vhosts().contains_key(h@) && self.vhosts()[h@] == *s,
                    None => !self.vhosts().contains_key(h@),
                },
            },
    {
        match host {
            None => None,
            Some(h) => self.vhosts.get(h),
        }
    }
}

/// The reply to a request for an unknown virtual host: 404 and its body.
pub fn vhost_not_found() -> (r: (u16, Vec<u8>))
    ensures
        r.0 == NOT_FOUND_STATUS,
        r.1@ == not_found_body(),
{
    proof { reveal_strlit("vHost Not Found"); }
    let t = "vHost Not Found";
    assert(is_ascii(t)) by {
        assert(vstd::utf8::is_ascii_chars(t@));
    }
    proof { vstd::string::is_ascii_spec_bytes(t); }
    let body = slice_to_vec(t.as_bytes(), 0, t.as_bytes().len());
    assert(body@ =~= not_found_body());
    (NOT_FOUND_STATUS, body)
}

/// HTTP round trip: a response `s` that the local target sends in non-empty
/// chunks, none of them the terminator, whose first chunk holds the end of
/// the head at `i` (the first `\r\n\r\n` within the window), reaches the
/// public client as the head `s[..i + 4]` (which `on_data` hands to the head
/// parser, giving status and headers) and a body that is exactly
/// `s[i + 4..]`: the rest of the first chunk, then every later chunk.
pub proof fn lemma_http_response_round_trip(chunks: Seq<Seq<u8>>, i: int)
    requires
        chunks.len() > 0,
        forall|k: int| 0 <= k < chunks.len() ==> (#[trigger] chunks[k]).len() > 0 && chunks[k] != eof_marker(),
        head_end_at(chunks[0], i),
        forall|j: int| 0 <= j < i ==> !head_end_at(chunks[0], j),
    ensures
        head_end_at(flatten(chunks), i),
        forall|j: int| 0 <= j < i ==> !head_end_at(flatten(chunks), j),
        flatten(chunks).subrange(0, i + 4) == chunks[0].subrange(0, i + 4),
        chunks[0].subrange(i + 4, chunks[0].len() as int) + flatten(chunks.drop_first())
            == flatten(chunks).subrange(i + 4, flatten(chunks).len() as int),
{
    let s = flatten(chunks);
    let c = chunks[0];
    assert(s == c + flatten(chunks.drop_first()));
    assert forall|j: int| 0 <= j < i implies !head_end_at(s, j) by {
        assert(!head_end_at(c, j));
        assert(s[j] == c[j] && s[j + 1] == c[j + 1] && s[j + 2] == c[j + 2] && s[j + 3] == c[j + 3]);
    }
    assert(s[i] == c[i] && s[i + 1] == c[i + 1] && s[i + 2] == c[i + 2] && s[i + 3] == c[i + 3]);
    assert(s.subrange(0, i + 4) =~= c.subrange(0, i + 4));
    assert(c.subrange(i + 4, c.len() as int) + flatten(chunks.drop_first()) =~= s.subrange(i + 4, s.len() as int));
}

} // verus!
