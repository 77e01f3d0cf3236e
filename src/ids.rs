//! Random identifiers: session ids, connection ids and generated subdomains.
use vstd::prelude::*;

verus! {

/// Length of a session id.
pub const SESSION_ID_LEN: usize = 128;

/// Length of a connection id.
pub const CONN_ID_LEN: usize = 32;

/// Length of a generated subdomain.
pub const SUBDOMAIN_LEN: usize = 8;

/// An ASCII letter or digit.
pub open spec fn is_alphanumeric(c: char) -> bool {
    ('A' <= c && c <= 'Z') || ('a' <= c && c <= 'z') || ('0' <= c && c <= '9')
}

/// `len` characters, each an ASCII letter or digit.
pub open spec fn is_alphanumeric_id(s: Seq<char>, len: nat) -> bool {
    &&& s.len() == len
    &&& forall|i: int| 0 <= i < s.len() ==> is_alphanumeric(#[trigger] s[i])
}

/// Relies on rand's `DistString::sample_string` for `Alphanumeric` on the
/// thread-local generator: `len` characters drawn from `[A-Za-z0-9]`.
#[verifier::external_body]
pub(crate) fn random_string(len: usize) -> (r: String)
    ensures
        is_alphanumeric_id(r@, len as nat),
{
    rand::distributions::DistString::sample_string(
        &rand::distributions::Alphanumeric,
        &mut rand::thread_rng(),
        len,
    )
}

/// A fresh connection id: `CONN_ID_LEN` random letters and digits.
pub fn new_connection_id() -> (r: String)
    ensures
        is_alphanumeric_id(r@, CONN_ID_LEN as nat),
{
    random_string(CONN_ID_LEN)
}

} // verus!
