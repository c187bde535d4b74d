//! A caching gateway for smart-contract ABI generation: cache-key derivation,
//! cache-aside orchestration of an external decompiler, artifact validation,
//! scratch-workspace lifetime tracking, and token-bucket admission control.

pub mod admission;
pub mod hashing;
pub mod jsonval;
pub mod key;
pub mod laws;
pub mod pipeline;
pub mod store;
