//! The entrypoint registry: the set of public endpoints that are owned by a
//! live client, with at most one owner per endpoint.
use vstd::prelude::*;
use dashmap::DashSet;
use vstd::string::*;
use crate::ids::{random_string, is_alphanumeric_id, SUBDOMAIN_LEN};
use crate::text::{decimal, lower_of, lowercase, parse_port, port_value, push_decimal, push_str};
use crate::transport::Protocol;

verus! {

/// How many generated subdomains are tried before giving up.
pub const SUBDOMAIN_ATTEMPTS: usize = 4;

/// Why no entrypoint could be allocated.
#[derive(Clone, Copy, Debug, PartialEq, Eq, Structural)]
pub enum EntrypointError {
    /// The requested virtual host is owned by another client.
    AlreadyExists,
    /// Every port of the configured range is owned.
    NoFreePort,
    /// The configured port range is not `<lo>-<hi>`.
    BadPortRange,
}

/// The HTTP entrypoint for `subdomain` under `domain`.
pub open spec fn http_key(subdomain: Seq<char>, domain: Seq<char>) -> Seq<char> {
    lower_of("http://"@ + subdomain + "."@ + domain)
}

/// The TCP entrypoint for `port`.
pub open spec fn tcp_key(port: nat) -> Seq<char> {
    "tcp://0.0.0.0:"@ + decimal(port)
}

/// Index of the first `-` in `s`, if any.
pub open spec fn first_dash(s: Seq<char>) -> Option<int> {
    if exists|i: int| 0 <= i < s.len() && s[i] == '-' && (forall|j: int| 0 <= j < i ==> s[j] != '-') {
        Some(choose|i: int| 0 <= i < s.len() && s[i] == '-' && (forall|j: int| 0 <= j < i ==> s[j] != '-'))
    } else {
        None
    }
}

/// The range `<lo>-<hi>` written in `s`: split at the first `-`, each side a
/// port number.
pub open spec fn port_range_of(s: Seq<char>) -> Option<(nat, nat)> {
    match first_dash(s) {
        Some(i) => match (port_value(s.subrange(0, i)), port_value(s.subrange(i + 1, s.len() as int))) {
            (Some(lo), Some(hi)) => Some((lo, hi)),
            _ => None,
        },
        None => None,
    }
}

/// The lowest port in `lo..hi` whose entrypoint is not in `owned`.
pub open spec fn first_free_port(owned: Set<Seq<char>>, lo: nat, hi: nat) -> Option<nat>
    decreases hi - lo,
{
    if lo >= hi {
        None
    } else if !owned.contains(tcp_key(lo)) {
        Some(lo)
    } else {
        first_free_port(owned, lo + 1, hi)
    }
}

/// What a successful allocation of `k` promises: `k` was free, and it is the
/// requested virtual host, a generated one, or the lowest free port.
pub open spec fn grants(
    owned: Set<Seq<char>>,
    protocol: Protocol,
    subdomain: Seq<char>,
    domain: Seq<char>,
    allow_ports: Seq<char>,
    k: Seq<char>,
) -> bool {
    &&& !owned.contains(k)
    &&& protocol == Protocol::Http && subdomain.len() > 0 ==> k == http_key(subdomain, domain)
    &&& protocol == Protocol::Http && subdomain.len() == 0 ==> exists|g: Seq<char>|
        is_alphanumeric_id(g, SUBDOMAIN_LEN as nat) && k == http_key(g, domain)
    &&& protocol == Protocol::Tcp ==> match port_range_of(allow_ports) {
        Some((lo, hi)) => first_free_port(owned, lo, hi) is Some && k == tcp_key(first_free_port(owned, lo, hi)->Some_0),
        None => false,
    }
}

/// When an allocation fails with `e`: the requested virtual host is taken
/// (or every generated one was), the range has no free port, or the range is
/// malformed.
pub open spec fn refuses(
    owned: Set<Seq<char>>,
    protocol: Protocol,
    subdomain: Seq<char>,
    domain: Seq<char>,
    allow_ports: Seq<char>,
    e: EntrypointError,
) -> bool {
    &&& protocol == Protocol::Http ==> e == EntrypointError::AlreadyExists
    &&& protocol == Protocol::Http && subdomain.len() > 0 ==> owned.contains(http_key(subdomain, domain))
    &&& protocol == Protocol::Http && subdomain.len() == 0 ==> exists|g: Seq<char>|
        is_alphanumeric_id(g, SUBDOMAIN_LEN as nat) && owned.contains(http_key(g, domain))
    &&& protocol == Protocol::Tcp ==> match port_range_of(allow_ports) {
        Some((lo, hi)) => first_free_port(owned, lo, hi) is None && e == EntrypointError::NoFreePort,
        None => e == EntrypointError::BadPortRange,
    }
}

/// Parses a port range `<lo>-<hi>` (inclusive low, exclusive high).
pub fn parse_port_range(s: &str) -> (r: Option<(u16, u16)>)
    ensures
        match port_range_of(s@) {
            Some((lo, hi)) => r == Some((lo as u16, hi as u16)),
            None => r is None,
        },
{
    let n = s.unicode_len();
    let mut k: usize = 0;
    while k < n
        invariant
            n == s@.len(),
            k <= n,
            forall|j: int| 0 <= j < k ==> s@[j] != '-',
        ensures
            k <= n,
            forall|j: int| 0 <= j < k ==> s@[j] != '-',
            k < n ==> s@[k as int] == '-',
        decreases n - k,
    {
        if s.get_char(k) == '-' {
            break;
        }
        k = k + 1;
    }
    if k == n {
        assert(first_dash(s@) is None);
        return None;
    }
    assert(first_dash(s@) == Some(k as int)) by {
        assert(0 <= k < s@.len() && s@[k as int] == '-' && (forall|j: int| 0 <= j < k ==> s@[j] != '-'));
        let c = choose|i: int| 0 <= i < s@.len() && s@[i] == '-' && (forall|j: int| 0 <= j < i ==> s@[j] != '-');
        assert(!(c < k));
        assert(!(c > k));
    }
    let lo = parse_port(s, 0, k);
    let hi = parse_port(s, k + 1, n);
    match (lo, hi) {
        (Some(a), Some(b)) => Some((a, b)),
        _ => None,
    }
}

/// The TCP entrypoint string for `port`.
pub fn tcp_entrypoint(port: u16) -> (r: String)
    ensures
        r@ == tcp_key(port as nat),
{
    let mut s = String::new();
    push_str(&mut s, "tcp://0.0.0.0:");
    push_decimal(&mut s, port as u32);
    s
}

/// The HTTP entrypoint string for `subdomain` under `domain`.
pub fn http_entrypoint(subdomain: &str, domain: &str) -> (r: String)
    ensures
        r@ == http_key(subdomain@, domain@),
{
    let mut s = String::new();
    push_str(&mut s, "http://");
    push_str(&mut s, subdomain);
    push_str(&mut s, ".");
    push_str(&mut s, domain);
    lowercase(s.as_str())
}

/// What a `DashSet` of strings holds.
pub uninterp spec fn dash_set_contents(set: DashSet<String>) -> Set<Seq<char>>;

#[verifier::external_type_specification]
#[verifier::external_body]
#[verifier::reject_recursive_types(K)]
#[verifier::reject_recursive_types(S)]
pub struct ExDashSet<K, S>(DashSet<K, S>);

/// Relies on dashmap's `DashSet::new`: an empty set.
#[verifier::external_body]
fn dash_set_new() -> (r: DashSet<String>)
    ensures
        dash_set_contents(r) == Set::<Seq<char>>::empty(),
{
    DashSet::new()
}

/// Relies on dashmap's `DashSet::contains`: whether `key` is in the set.
#[verifier::external_body]
fn dash_set_contains(set: &DashSet<String>, key: &str) -> (r: bool)
    ensures
        r == dash_set_contents(*set).contains(key@),
{
    set.contains(key)
}

/// Relies on dashmap's `DashSet::insert`: adds `key`, and says whether it
/// was absent.
#[verifier::external_body]
fn dash_set_insert(set: &mut DashSet<String>, key: String) -> (r: bool)
    ensures
        dash_set_contents(*final(set)) == dash_set_contents(*old(set)).insert(key@),
        r == !dash_set_contents(*old(set)).contains(key@),
{
    set.insert(key)
}

/// Relies on dashmap's `DashSet::remove`: takes `key` out, and says whether
/// it was present.
#[verifier::external_body]
fn dash_set_remove(set: &mut DashSet<String>, key: &str) -> (r: bool)
    ensures
        dash_set_contents(*final(set)) == dash_set_contents(*old(set)).remove(key@),
        r == dash_set_contents(*old(set)).contains(key@),
{
    set.remove(key).is_some()
}

/// Relies on dashmap's `DashSet::len`: the number of entries.
#[verifier::external_body]
fn dash_set_len(set: &DashSet<String>) -> (r: usize)
    ensures
        r as nat == dash_set_contents(*set).len(),
{
    set.len()
}

/// The set of owned entrypoints.
pub struct EntrypointRegistry {
    entries: DashSet<String>,
}

impl View for EntrypointRegistry {
    type V = Set<Seq<char>>;

    closed spec fn view(&self) -> Set<Seq<char>> {
        dash_set_contents(self.entries)
    }
}

impl EntrypointRegistry {
    /// An empty registry.
    pub fn new() -> (r: Self)
        ensures
            r@ == Set::<Seq<char>>::empty(),
    {
        EntrypointRegistry { entries: dash_set_new() }
    }

    /// Number of owned entrypoints.
    pub fn len(&self) -> (r: usize)
        ensures
            r as nat == self@.len(),
    {
        dash_set_len(&self.entries)
    }

    /// Whether `key` is owned.
    pub fn contains(&self, key: &str) -> (r: bool)
        ensures
            r == self@.contains(key@),
    {
        dash_set_contains(&self.entries, key)
    }

    /// Releases `key`; releasing an entrypoint that is not owned changes nothing.
    pub fn release(&mut self, key: &str)
        ensures
            final(self)@ == old(self)@.remove(key@),
    {
        let _ = dash_set_remove(&mut self.entries, key);
    }
}

impl EntrypointRegistry {
    /// The HTTP entrypoint for `subdomain`, if nobody owns it.
    pub fn build_http_host(&self, subdomain: &str, domain: &str) -> (r: Result<String, EntrypointError>)
        ensures
            match r {
                Ok(k) => k@ == http_key(subdomain@, domain@) && !self@.contains(k@),
                Err(e) => e == EntrypointError::AlreadyExists && self@.contains(http_key(subdomain@, domain@)),
            },
    {
        let key = http_entrypoint(subdomain, domain);
        if self.contains(key.as_str()) {
            return Err(EntrypointError::AlreadyExists);
        }
        Ok(key)
    }

    /// The entrypoint of the lowest port of `allow_ports` (`<lo>-<hi>`) that
    /// nobody owns.
    pub fn build_tcp_addr(&self, allow_ports: &str) -> (r: Result<String, EntrypointError>)
        ensures
            match port_range_of(allow_ports@) {
                None => r == Err::<String, EntrypointError>(EntrypointError::BadPortRange),
                Some((lo, hi)) => match first_free_port(self@, lo, hi) {
                    Some(p) => r is Ok && r->Ok_0@ == tcp_key(p),
                    None => r == Err::<String, EntrypointError>(EntrypointError::NoFreePort),
                },
            },
            r is Ok ==> !self@.contains(r->Ok_0@),
    {
        let (lo, hi) = match parse_port_range(allow_ports) {
            Some(range) => range,
            None => return Err(EntrypointError::BadPortRange),
        };
        assert(port_range_of(allow_ports@) == Some((lo as nat, hi as nat))) by {
            let i = first_dash(allow_ports@)->Some_0;
            assert(port_value(allow_ports@.subrange(0, i)) is Some);
            assert(port_value(allow_ports@.subrange(i + 1, allow_ports@.len() as int)) is Some);
        }
        let ghost owned = self@;
        let mut port: u32 = lo as u32;
        while port < hi as u32
            invariant
                lo <= port,
                port <= hi || port == lo,
                first_free_port(owned, lo as nat, hi as nat) == first_free_port(owned, port as nat, hi as nat),
                owned == self@,
                port_range_of(allow_ports@) == Some((lo as nat, hi as nat)),
            decreases hi - port,
        {
            let key = tcp_entrypoint(port as u16);
            if !self.contains(key.as_str()) {
                assert(first_free_port(owned, port as nat, hi as nat) == Some(port as nat));
                return Ok(key);
            }
            assert(first_free_port(owned, port as nat, hi as nat) == first_free_port(owned, port as nat + 1, hi as nat));
            port = port + 1;
        }
        Err(EntrypointError::NoFreePort)
    }

    /// Allocates an entrypoint for a client and records it as owned.
    ///
    /// HTTP: the requested subdomain, or when none is requested a generated
    /// one (a few are tried). TCP: the lowest free port of `allow_ports`.
    pub fn build_entrypoint(
        &mut self,
        protocol: Protocol,
        subdomain: &str,
        domain: &str,
        allow_ports: &str,
    ) -> (r: Result<String, EntrypointError>)
        ensures
            match r {
                Ok(k) => grants(old(self)@, protocol, subdomain@, domain@, allow_ports@, k@)
                    && final(self)@ == old(self)@.insert(k@),
                Err(e) => refuses(old(self)@, protocol, subdomain@, domain@, allow_ports@, e)
                    && final(self)@ == old(self)@,
            },
    {
        let built = match protocol {
            Protocol::Http => {
                if subdomain.unicode_len() > 0 {
                    self.build_http_host(subdomain, domain)
                } else {
                    self.build_random_http_host(domain)
                }
            },
            Protocol::Tcp => self.build_tcp_addr(allow_ports),
        };
        match built {
            Ok(key) => {
                let out = key.clone();
                let _ = dash_set_insert(&mut self.entries, key);
                Ok(out)
            },
            Err(e) => Err(e),
        }
    }

    fn build_random_http_host(&self, domain: &str) -> (r: Result<String, EntrypointError>)
        ensures
            match r {
                Ok(k) => !self@.contains(k@) && exists|g: Seq<char>|
                    is_alphanumeric_id(g, SUBDOMAIN_LEN as nat) && k@ == http_key(g, domain@),
                Err(e) => e == EntrypointError::AlreadyExists && exists|g: Seq<char>|
                    is_alphanumeric_id(g, SUBDOMAIN_LEN as nat) && self@.contains(http_key(g, domain@)),
            },
    {
        let mut attempt: usize = 0;
        while attempt < SUBDOMAIN_ATTEMPTS
            invariant
                attempt > 0 ==> exists|g: Seq<char>|
                    is_alphanumeric_id(g, SUBDOMAIN_LEN as nat) && self@.contains(http_key(g, domain@)),
            decreases SUBDOMAIN_ATTEMPTS - attempt,
        {
            let generated = random_string(SUBDOMAIN_LEN);
            match self.build_http_host(generated.as_str(), domain) {
                Ok(key) => return Ok(key),
                Err(_) => {},
            }
            attempt = attempt + 1;
        }
        Err(EntrypointError::AlreadyExists)
    }
}

/// A step on the entrypoint registry: a client is granted an entrypoint, or
/// an entrypoint is released.
pub enum EntrypointOp {
    Grant(Seq<char>),
    Release(Seq<char>),
}

/// How the registry's set changes under `op`, as `build_entrypoint` and
/// `release` ensure: a grant only of an entrypoint not owned.
pub open spec fn registry_step(before: Set<Seq<char>>, after: Set<Seq<char>>, op: EntrypointOp) -> bool {
    match op {
        EntrypointOp::Grant(k) => !before.contains(k) && after == before.insert(k),
        EntrypointOp::Release(k) => after == before.remove(k),
    }
}

/// How many clients hold `k` after `ops`: a grant adds a holder, a release
/// of `k` ends every holding.
pub open spec fn holders(ops: Seq<EntrypointOp>, k: Seq<char>) -> nat
    decreases ops.len(),
{
    if ops.len() == 0 {
        0
    } else {
        let rest = holders(ops.drop_last(), k);
        match ops.last() {
            EntrypointOp::Grant(g) => if g == k { rest + 1 } else { rest },
            EntrypointOp::Release(g) => if g == k { 0 } else { rest },
        }
    }
}

/// Entrypoint uniqueness: along any interleaving of grants and releases
/// that starts from an empty registry, every entrypoint has at most one
/// holder at any moment, and it has one exactly when the registry owns it.
pub proof fn lemma_single_owner(states: Seq<Set<Seq<char>>>, ops: Seq<EntrypointOp>, k: Seq<char>)
    requires
        states.len() == ops.len() + 1,
        states[0] == Set::<Seq<char>>::empty(),
        forall|i: int| 0 <= i < ops.len() ==> registry_step(#[trigger] states[i], states[i + 1], ops[i]),
    ensures
        holders(ops, k) <= 1,
        holders(ops, k) == 1 <==> states[ops.len() as int].contains(k),
    decreases ops.len(),
{
    if ops.len() > 0 {
        let n = ops.len() - 1;
        assert(registry_step(states[n], states[n + 1], ops[n]));
        lemma_single_owner(states.subrange(0, n + 1), ops.subrange(0, n), k);
        assert(ops.drop_last() =~= ops.subrange(0, n));
    }
}

} // verus!
