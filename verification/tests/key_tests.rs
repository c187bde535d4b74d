//! Tests for endpoint normalization, fingerprinting, and cache-key derivation.

use abi_gateway::key::{derive_key, endpoint_fingerprint, has_prefix, normalize_endpoint};
use sha2::Digest;

#[test]
fn normalization_applies_scheme_if_absent() {
    assert_eq!(normalize_endpoint("rpcx.io"), "https://rpcx.io");
    assert_eq!(normalize_endpoint("rpcx.io/path"), "https://rpcx.io/path");
    assert_eq!(normalize_endpoint("http://rpcx.io"), "http://rpcx.io");
    assert_eq!(normalize_endpoint("https://rpcx.io"), "https://rpcx.io");
}

#[test]
fn has_prefix_matches_starts_with() {
    let cases = [
        ("https://rpcx.io", "https://"),
        ("http://rpcx.io", "https://"),
        ("rp", "rpcx"),
        ("", "x"),
        ("abc", ""),
        ("abc", "abc"),
        ("abd", "abc"),
    ];
    for (s, p) in cases {
        assert_eq!(has_prefix(s, p), s.starts_with(p), "prefix check for {s:?} / {p:?}");
    }
}

#[test]
fn fingerprint_matches_sha256_of_normalized_endpoint() {
    let expected = hex::encode(sha2::Sha256::digest("https://rpcx.io".as_bytes()));
    assert_eq!(endpoint_fingerprint("rpcx.io"), expected);
    assert_eq!(endpoint_fingerprint("https://rpcx.io"), expected);
}

#[test]
fn fingerprint_is_deterministic() {
    assert_eq!(endpoint_fingerprint("rpcx.io"), endpoint_fingerprint("rpcx.io"));
    let k1 = derive_key("0xABC", "rpcx.io");
    let k2 = derive_key("0xABC", "rpcx.io");
    assert_eq!(k1.address, k2.address);
    assert_eq!(k1.fingerprint, k2.fingerprint);
}

#[test]
fn fingerprint_changes_with_endpoint() {
    let endpoints = ["rpcx.io", "rpcy.io", "rpcx.io/path", "http://rpcx.io", "rpcx.io:8545"];
    for (i, a) in endpoints.iter().enumerate() {
        for b in endpoints.iter().skip(i + 1) {
            assert_ne!(
                endpoint_fingerprint(a),
                endpoint_fingerprint(b),
                "collision between {a:?} and {b:?}"
            );
        }
    }
}

#[test]
fn fingerprint_is_64_lowercase_hex_chars() {
    let f = endpoint_fingerprint("rpcx.io");
    assert_eq!(f.len(), 64);
    assert!(f.chars().all(|c| c.is_ascii_hexdigit() && !c.is_ascii_uppercase()));
}

#[test]
fn fingerprint_is_not_the_input() {
    let f = endpoint_fingerprint("abcd");
    assert_ne!(f, "abcd");
    assert_ne!(f, "https://abcd");
    assert_ne!(f, hex::encode("https://abcd".as_bytes()));
}

#[test]
fn derived_key_keeps_address_verbatim() {
    let k = derive_key("0xAbCd", "rpcx.io");
    assert_eq!(k.address, "0xAbCd");
    assert_eq!(k.fingerprint, endpoint_fingerprint("rpcx.io"));
}
