//! Cache-key derivation: endpoint normalization, endpoint fingerprinting, and
//! the derived cache key pairing the verbatim contract address with the
//! fingerprint.

use crate::hashing::{hex_encode, hex_of, lemma_hex_of_len, sha256_digest, sha256_of};
use vstd::prelude::*;
use vstd::string::StrSliceExecFns;
use vstd::string::StringExecFns;

verus! {

/// Whether the string `s` starts with `p`, checked character by character.
pub fn has_prefix(s: &str, p: &str) -> (b: bool)
    ensures
        b == p@.is_prefix_of(s@),
{
    let p_len: usize = p.unicode_len();
    let s_len: usize = s.unicode_len();
    if p_len > s_len {
        return false;
    }
    let mut i: usize = 0;
    while i < p_len
        invariant
            i <= p_len,
            p_len == p@.len(),
            s_len == s@.len(),
            p_len <= s_len,
            forall|j: int| 0 <= j < i ==> s@[j] == p@[j],
        decreases p_len - i,
    {
        if s.get_char(i) != p.get_char(i) {
            assert(!p@.is_prefix_of(s@)) by {
                assert(s@.subrange(0, p@.len() as int)[i as int] == s@[i as int]);
            }
            return false;
        }
        i += 1;
    }
    assert(p@ =~= s@.subrange(0, p@.len() as int));
    true
}

/// An endpoint after normalization: left alone when it already names a scheme,
/// otherwise prefixed with the canonical secure scheme.
pub open spec fn spec_normalize(url: Seq<char>) -> Seq<char> {
    if "https://"@.is_prefix_of(url) || "http://"@.is_prefix_of(url) {
        url
    } else {
        "https://"@ + url
    }
}

/// Apply the canonical scheme to an RPC endpoint if it does not already carry
/// one.
pub fn normalize_endpoint(url: &str) -> (r: String)
    ensures
        r@ == spec_normalize(url@),
{
    if has_prefix(url, "https://") || has_prefix(url, "http://") {
        url.to_owned()
    } else {
        String::from_str("https://").concat(url)
    }
}

/// The fingerprint of an RPC endpoint: the lowercase hexadecimal form of the
/// SHA-256 digest of the normalized endpoint.
pub open spec fn spec_fingerprint(url: Seq<char>) -> Seq<char> {
    hex_of(sha256_of(spec_normalize(url)))
}

/// Compute the endpoint fingerprint; it is always 64 hexadecimal characters.
pub fn endpoint_fingerprint(url: &str) -> (r: String)
    ensures
        r@ == spec_fingerprint(url@),
        r@.len() == 64,
{
    let normalized = normalize_endpoint(url);
    let digest = sha256_digest(normalized.as_str());
    let encoded = hex_encode(&digest);
    proof {
        lemma_hex_of_len(digest@);
    }
    encoded
}

/// A derived cache key: the contract address verbatim, and the fingerprint of
/// the RPC endpoint in place of the endpoint itself.
pub struct CacheKey {
    pub address: String,
    pub fingerprint: String,
}

/// The mathematical value of a cache key.
pub struct CacheKeyView {
    pub address: Seq<char>,
    pub fingerprint: Seq<char>,
}

impl View for CacheKey {
    type V = CacheKeyView;

    open spec fn view(&self) -> CacheKeyView {
        CacheKeyView { address: self.address@, fingerprint: self.fingerprint@ }
    }
}

/// The cache key derived from a contract address and a raw RPC endpoint.
pub open spec fn spec_cache_key(address: Seq<char>, url: Seq<char>) -> CacheKeyView {
    CacheKeyView { address: address, fingerprint: spec_fingerprint(url) }
}

/// Derive the cache key for a request: the address is kept verbatim, the
/// endpoint is normalized and fingerprinted.
pub fn derive_key(address: &str, rpc_url: &str) -> (k: CacheKey)
    requires
        address@.len() > 0,
        rpc_url@.len() > 0,
    ensures
        k@ == spec_cache_key(address@, rpc_url@),
        k@.fingerprint.len() == 64,
{
    CacheKey { address: address.to_owned(), fingerprint: endpoint_fingerprint(rpc_url) }
}

/// Law: key derivation is deterministic — equal address and endpoint inputs
/// always yield equal cache keys.
pub proof fn lemma_key_derivation_deterministic(
    a1: Seq<char>,
    u1: Seq<char>,
    a2: Seq<char>,
    u2: Seq<char>,
)
    requires
        a1 == a2,
        u1 == u2,
    ensures
        spec_cache_key(a1, u1) == spec_cache_key(a2, u2),
{
}

/// Law: endpoints whose fingerprints differ never collide in the cache — their
/// derived keys differ even when the contract address is the same.
pub proof fn lemma_distinct_fingerprints_distinct_keys(a: Seq<char>, u1: Seq<char>, u2: Seq<char>)
    requires
        spec_fingerprint(u1) != spec_fingerprint(u2),
    ensures
        spec_cache_key(a, u1) != spec_cache_key(a, u2),
{
}

} // verus!
