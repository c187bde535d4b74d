//! The persisted cache record and the mathematical model of the result store:
//! a map keyed by (contract address, endpoint fingerprint) with
//! upsert-on-conflict semantics.

use vstd::prelude::*;

verus! {

/// A record persisted for one (contract address, endpoint fingerprint) pair:
/// the ABI document, and the decompiled source when the tool produced one.
pub struct CacheRecord {
    pub contract_address: String,
    pub rpc_url_hash: String,
    pub abi_json: String,
    pub decompilation_output: Option<String>,
}

/// The mathematical value of a cache record.
pub struct CacheRecordView {
    pub contract_address: Seq<char>,
    pub rpc_url_hash: Seq<char>,
    pub abi_json: Seq<char>,
    pub decompilation_output: Option<Seq<char>>,
}

impl View for CacheRecord {
    type V = CacheRecordView;

    open spec fn view(&self) -> CacheRecordView {
        CacheRecordView {
            contract_address: self.contract_address@,
            rpc_url_hash: self.rpc_url_hash@,
            abi_json: self.abi_json@,
            decompilation_output: match self.decompilation_output {
                Option::Some(s) => Option::Some(s@),
                Option::None => Option::None,
            },
        }
    }
}

/// The key under which a record is stored.
pub open spec fn record_key(r: CacheRecordView) -> (Seq<char>, Seq<char>) {
    (r.contract_address, r.rpc_url_hash)
}

/// The store model: an upsert is insertion into a map keyed by (contract
/// address, endpoint fingerprint) — a repeated write for the same pair is an
/// update in place, never a second row.
pub open spec fn store_upsert(
    store: Map<(Seq<char>, Seq<char>), CacheRecordView>,
    r: CacheRecordView,
) -> Map<(Seq<char>, Seq<char>), CacheRecordView> {
    store.insert(record_key(r), r)
}

/// The store model's lookup: the record under the key, if one was ever
/// written there.
pub open spec fn store_lookup(
    store: Map<(Seq<char>, Seq<char>), CacheRecordView>,
    address: Seq<char>,
    fingerprint: Seq<char>,
) -> Option<CacheRecordView> {
    if store.contains_key((address, fingerprint)) {
        Option::Some(store[(address, fingerprint)])
    } else {
        Option::None
    }
}

/// Law: a persisted record is found by every later lookup of its own key —
/// a successful generation turns the following identical request into a
/// cache hit.
pub proof fn lemma_upsert_then_lookup(
    store: Map<(Seq<char>, Seq<char>), CacheRecordView>,
    r: CacheRecordView,
)
    ensures
        store_lookup(store_upsert(store, r), r.contract_address, r.rpc_url_hash)
            == Option::Some(r),
{
}

/// Law: upsert is idempotent per key — writing twice for the same (address,
/// fingerprint) pair is the same as writing once with the second record: the
/// key holds the second write (last write wins), no duplicate entry appears,
/// and no other key is touched.
pub proof fn lemma_upsert_last_write_wins(
    store: Map<(Seq<char>, Seq<char>), CacheRecordView>,
    r1: CacheRecordView,
    r2: CacheRecordView,
)
    requires
        record_key(r1) == record_key(r2),
    ensures
        store_upsert(store_upsert(store, r1), r2) == store_upsert(store, r2),
        store_upsert(store_upsert(store, r1), r2)[record_key(r2)] == r2,
        store_upsert(store_upsert(store, r1), r2).dom() == store.dom().insert(record_key(r2)),
{
    assert(store_upsert(store_upsert(store, r1), r2) =~= store_upsert(store, r2));
    assert(store_upsert(store_upsert(store, r1), r2).dom() =~= store.dom().insert(record_key(r2)));
}

} // verus!
