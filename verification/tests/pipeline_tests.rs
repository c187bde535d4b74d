//! End-to-end scenarios for the cache-aside pipeline, driven against an
//! in-memory store stub and a scriptable decompiler stub.

use abi_gateway::key::endpoint_fingerprint;
use abi_gateway::pipeline::{
    AbiError, Action, Event, InvokeOutcome, LookupOutcome, Orchestrator, Response,
};
use std::collections::HashMap;

type Store = HashMap<(String, String), (String, Option<String>)>;

#[derive(Clone, Copy, PartialEq)]
enum LookupMode {
    Normal,
    AlwaysMiss,
    Error,
}

struct RunResult {
    status: u16,
    body: String,
    invocations: u32,
    cleanups: u32,
}

fn run_request(
    store: &mut Store,
    lookup_mode: LookupMode,
    persist_ok: bool,
    decompiler: &dyn Fn() -> InvokeOutcome,
    address: &str,
    rpc_url: Option<&str>,
    request_id: u64,
) -> RunResult {
    assert!(!address.is_empty());
    let (mut orch, mut action) = Orchestrator::start(address, rpc_url, request_id);
    let mut invocations: u32 = 0;
    let mut cleanups: u32 = 0;
    loop {
        let event = match action {
            Action::Lookup { address, fingerprint } => {
                let outcome = match lookup_mode {
                    LookupMode::Error => LookupOutcome::StoreError,
                    LookupMode::AlwaysMiss => LookupOutcome::Miss,
                    LookupMode::Normal => match store.get(&(address, fingerprint)) {
                        Some((abi, _)) => LookupOutcome::Hit { abi: abi.clone() },
                        None => LookupOutcome::Miss,
                    },
                };
                Event::LookupDone { outcome }
            }
            Action::Invoke { .. } => {
                invocations += 1;
                Event::InvokeDone { outcome: decompiler() }
            }
            Action::Persist { record } => {
                if persist_ok {
                    store.insert(
                        (record.contract_address, record.rpc_url_hash),
                        (record.abi_json, record.decompilation_output),
                    );
                }
                Event::PersistDone { ok: persist_ok }
            }
            Action::Cleanup { .. } => {
                cleanups += 1;
                Event::CleanupDone
            }
            Action::Respond { response } => {
                return RunResult {
                    status: response.status_code(),
                    body: response.body().to_string(),
                    invocations,
                    cleanups,
                };
            }
        };
        assert!(orch.accepts(&event));
        action = orch.step(event);
    }
}

fn good_decompiler(abi: &str) -> impl Fn() -> InvokeOutcome + '_ {
    move || InvokeOutcome::Exited {
        abi: Some(abi.to_string()),
        source: Some("contract C {}".to_string()),
    }
}

#[test]
fn missing_rpc_url_is_rejected_without_invoking() {
    let mut store = Store::new();
    let r = run_request(&mut store, LookupMode::Normal, true, &good_decompiler("{}"), "0xABC", None, 1);
    assert_eq!(r.status, 400);
    assert_eq!(r.body, "Missing rpc_url parameter");
    assert_eq!(r.invocations, 0);
    assert_eq!(r.cleanups, 0);
    assert!(store.is_empty());
}

#[test]
fn empty_rpc_url_is_rejected_without_invoking() {
    let mut store = Store::new();
    let r = run_request(&mut store, LookupMode::Normal, true, &good_decompiler("{}"), "0xABC", Some(""), 2);
    assert_eq!(r.status, 400);
    assert_eq!(r.invocations, 0);
}

#[test]
fn cache_hit_is_served_without_invoking() {
    let mut store = Store::new();
    store.insert(
        ("0xABC".to_string(), endpoint_fingerprint("rpcx.io")),
        ("{\"x\":1}".to_string(), None),
    );
    let r = run_request(
        &mut store,
        LookupMode::Normal,
        true,
        &good_decompiler("{\"other\":2}"),
        "0xABC",
        Some("rpcx.io"),
        3,
    );
    assert_eq!(r.status, 200);
    assert_eq!(r.body, "{\"x\":1}");
    assert_eq!(r.invocations, 0);
    assert_eq!(r.cleanups, 0);
}

#[test]
fn cache_miss_then_success_then_hit() {
    let mut store = Store::new();
    let abi = "[{\"type\":\"function\",\"name\":\"f\"}]";
    let first = run_request(
        &mut store,
        LookupMode::Normal,
        true,
        &good_decompiler(abi),
        "0xABC",
        Some("rpcx.io"),
        4,
    );
    assert_eq!(first.status, 200);
    assert_eq!(first.body, abi);
    assert_eq!(first.invocations, 1);
    assert_eq!(first.cleanups, 1);
    assert_eq!(store.len(), 1);

    let second = run_request(
        &mut store,
        LookupMode::Normal,
        true,
        &good_decompiler(abi),
        "0xABC",
        Some("rpcx.io"),
        5,
    );
    assert_eq!(second.status, 200);
    assert_eq!(second.body, abi);
    assert_eq!(second.invocations, 0, "a repeated request must be a cache hit");
    assert_eq!(store.len(), 1);
}

#[test]
fn repeated_decompilation_upserts_one_record_last_write_wins() {
    let mut store = Store::new();
    let first = run_request(
        &mut store,
        LookupMode::AlwaysMiss,
        true,
        &good_decompiler("{\"v\":1}"),
        "0xABC",
        Some("rpcx.io"),
        6,
    );
    assert_eq!(first.status, 200);
    let second = run_request(
        &mut store,
        LookupMode::AlwaysMiss,
        true,
        &good_decompiler("{\"v\":2}"),
        "0xABC",
        Some("rpcx.io"),
        7,
    );
    assert_eq!(second.status, 200);
    assert_eq!(second.invocations, 1);
    assert_eq!(store.len(), 1, "a repeated write must update in place, not duplicate");
    let key = ("0xABC".to_string(), endpoint_fingerprint("rpcx.io"));
    assert_eq!(store.get(&key).unwrap().0, "{\"v\":2}");
}

#[test]
fn invalid_artifact_gives_500_and_persists_nothing() {
    let mut store = Store::new();
    let r = run_request(
        &mut store,
        LookupMode::Normal,
        true,
        &good_decompiler("definitely not json"),
        "0xABC",
        Some("rpcx.io"),
        8,
    );
    assert_eq!(r.status, 500);
    assert_eq!(r.body, "Invalid ABI generated");
    assert_eq!(r.invocations, 1);
    assert_eq!(r.cleanups, 1, "the workspace must be removed on validation failure");
    assert!(store.is_empty());
}

#[test]
fn missing_artifact_gives_500_and_cleans_up() {
    let mut store = Store::new();
    let decompiler = || InvokeOutcome::Exited { abi: None, source: None };
    let r = run_request(&mut store, LookupMode::Normal, true, &decompiler, "0xABC", Some("rpcx.io"), 9);
    assert_eq!(r.status, 500);
    assert_eq!(r.body, "Failed to read ABI file");
    assert_eq!(r.cleanups, 1);
    assert!(store.is_empty());
}

#[test]
fn spawn_failure_gives_500_and_cleans_up() {
    let mut store = Store::new();
    let decompiler = || InvokeOutcome::SpawnError;
    let r = run_request(&mut store, LookupMode::Normal, true, &decompiler, "0xABC", Some("rpcx.io"), 10);
    assert_eq!(r.status, 500);
    assert_eq!(r.body, "Failed to execute command");
    assert_eq!(r.cleanups, 1);
}

#[test]
fn exit_failure_gives_500_and_cleans_up() {
    let mut store = Store::new();
    let decompiler = || InvokeOutcome::ExitError;
    let r = run_request(&mut store, LookupMode::Normal, true, &decompiler, "0xABC", Some("rpcx.io"), 11);
    assert_eq!(r.status, 500);
    assert_eq!(r.body, "Error generating ABI");
    assert_eq!(r.cleanups, 1);
}

#[test]
fn store_down_still_serves_the_generated_abi() {
    let mut store = Store::new();
    let abi = "{\"works\":true}";
    let r = run_request(
        &mut store,
        LookupMode::Error,
        false,
        &good_decompiler(abi),
        "0xABC",
        Some("rpcx.io"),
        12,
    );
    assert_eq!(r.status, 200, "datastore health must not gate the decompiler path");
    assert_eq!(r.body, abi);
    assert_eq!(r.invocations, 1);
    assert_eq!(r.cleanups, 1);
    assert!(store.is_empty());
}

#[test]
fn every_scenario_balances_workspace_creation_and_cleanup() {
    let mut store = Store::new();
    let scripts: Vec<Box<dyn Fn() -> InvokeOutcome>> = vec![
        Box::new(|| InvokeOutcome::SpawnError),
        Box::new(|| InvokeOutcome::ExitError),
        Box::new(|| InvokeOutcome::Exited { abi: None, source: None }),
        Box::new(|| InvokeOutcome::Exited { abi: Some("not json".to_string()), source: None }),
        Box::new(|| InvokeOutcome::Exited { abi: Some("[1,2]".to_string()), source: None }),
    ];
    for (i, script) in scripts.iter().enumerate() {
        let r = run_request(
            &mut store,
            LookupMode::AlwaysMiss,
            true,
            script.as_ref(),
            "0xDEF",
            Some("rpcx.io"),
            100 + i as u64,
        );
        assert_eq!(
            r.invocations, r.cleanups,
            "scenario {i}: every created workspace must have been removed"
        );
    }
}

#[test]
fn responses_carry_the_documented_statuses() {
    let ok = Response::Success { abi: "{}".to_string() };
    assert_eq!(ok.status_code(), 200);
    assert!(ok.is_success());
    assert_eq!(ok.body(), "{}");

    let cases = [
        (AbiError::BadRequest, 400u16, "Missing rpc_url parameter"),
        (AbiError::RateLimited, 429, "Too many requests"),
        (AbiError::SpawnFailure, 500, "Failed to execute command"),
        (AbiError::ExitFailure, 500, "Error generating ABI"),
        (AbiError::ArtifactMissing, 500, "Failed to read ABI file"),
        (AbiError::ArtifactInvalid, 500, "Invalid ABI generated"),
    ];
    for (error, status, message) in cases {
        let response = Response::Failure { error };
        assert_eq!(response.status_code(), status);
        assert_eq!(response.body(), message);
        assert!(!response.is_success());
    }
}
