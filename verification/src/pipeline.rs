//! The request orchestrator: a cache-aside state machine. Each request walks
//! key derivation, cache lookup, decompiler invocation, artifact validation,
//! best-effort persistence, and scratch-workspace cleanup. The machine only
//! decides; the outside work (datastore, subprocess, filesystem) is performed
//! by the caller, which hands each action's outcome back as an event.

use crate::jsonval::{is_well_formed_json, json_valid};
use crate::key::{endpoint_fingerprint, normalize_endpoint, spec_fingerprint, spec_normalize};
use crate::store::{CacheRecord, CacheRecordView};
use vstd::pervasive::unreached;
use vstd::prelude::*;

verus! {

/// The user-visible error taxonomy.
#[derive(Clone, Copy, PartialEq, Eq, Structural, Debug)]
pub enum AbiError {
    /// The required rpc_url query parameter was absent or empty.
    BadRequest,
    /// Admission control rejected the request before it reached the pipeline.
    RateLimited,
    /// The decompiler process could not be spawned.
    SpawnFailure,
    /// The decompiler exited with a failure status.
    ExitFailure,
    /// The expected ABI artifact was absent or unreadable after a reported
    /// success.
    ArtifactMissing,
    /// The ABI artifact was not a well-formed JSON document.
    ArtifactInvalid,
}

impl AbiError {
    /// The HTTP status this error maps to.
    pub open spec fn spec_status_code(self) -> u16 {
        match self {
            AbiError::BadRequest => 400,
            AbiError::RateLimited => 429,
            AbiError::SpawnFailure => 500,
            AbiError::ExitFailure => 500,
            AbiError::ArtifactMissing => 500,
            AbiError::ArtifactInvalid => 500,
        }
    }

    /// The response body this error maps to.
    pub open spec fn spec_message(self) -> Seq<char> {
        match self {
            AbiError::BadRequest => "Missing rpc_url parameter"@,
            AbiError::RateLimited => "Too many requests"@,
            AbiError::SpawnFailure => "Failed to execute command"@,
            AbiError::ExitFailure => "Error generating ABI"@,
            AbiError::ArtifactMissing => "Failed to read ABI file"@,
            AbiError::ArtifactInvalid => "Invalid ABI generated"@,
        }
    }

    /// The HTTP status code for this error.
    pub fn status_code(&self) -> (c: u16)
        ensures
            c == self.spec_status_code(),
    {
        match self {
            AbiError::BadRequest => 400,
            AbiError::RateLimited => 429,
            AbiError::SpawnFailure => 500,
            AbiError::ExitFailure => 500,
            AbiError::ArtifactMissing => 500,
            AbiError::ArtifactInvalid => 500,
        }
    }

    /// The response body for this error.
    pub fn message(&self) -> (m: &'static str)
        ensures
            m@ == self.spec_message(),
    {
        match self {
            AbiError::BadRequest => "Missing rpc_url parameter",
            AbiError::RateLimited => "Too many requests",
            AbiError::SpawnFailure => "Failed to execute command",
            AbiError::ExitFailure => "Error generating ABI",
            AbiError::ArtifactMissing => "Failed to read ABI file",
            AbiError::ArtifactInvalid => "Invalid ABI generated",
        }
    }
}

/// The terminal outcome of a request.
pub enum Response {
    /// The ABI document to return with status 200.
    Success { abi: String },
    /// A user-visible failure.
    Failure { error: AbiError },
}

/// The mathematical value of a response.
pub enum ResponseView {
    Success { abi: Seq<char> },
    Failure { error: AbiError },
}

impl View for Response {
    type V = ResponseView;

    open spec fn view(&self) -> ResponseView {
        match self {
            Response::Success { abi } => ResponseView::Success { abi: abi@ },
            Response::Failure { error } => ResponseView::Failure { error: *error },
        }
    }
}

/// The HTTP status of a response.
pub open spec fn spec_response_status(r: ResponseView) -> u16 {
    match r {
        ResponseView::Success { .. } => 200,
        ResponseView::Failure { error } => error.spec_status_code(),
    }
}

/// The body of a response: the ABI document on success, the error message
/// otherwise.
pub open spec fn spec_response_body(r: ResponseView) -> Seq<char> {
    match r {
        ResponseView::Success { abi } => abi,
        ResponseView::Failure { error } => error.spec_message(),
    }
}

impl Response {
    /// The HTTP status code of this response.
    pub fn status_code(&self) -> (c: u16)
        ensures
            c == spec_response_status(self@),
    {
        match self {
            Response::Success { .. } => 200,
            Response::Failure { error } => error.status_code(),
        }
    }

    /// The body of this response.
    pub fn body(&self) -> (b: &str)
        ensures
            b@ == spec_response_body(self@),
    {
        match self {
            Response::Success { abi } => abi.as_str(),
            Response::Failure { error } => error.message(),
        }
    }

    /// Whether this response is a success.
    pub fn is_success(&self) -> (b: bool)
        ensures
            b == (self@ is Success),
    {
        match self {
            Response::Success { .. } => true,
            Response::Failure { .. } => false,
        }
    }
}

/// The scratch workspace of one in-flight request, named by the contract
/// address and a request-unique suffix.
pub struct WorkspaceId {
    pub address: String,
    pub request_id: u64,
}

/// The mathematical value of a workspace name.
pub struct WorkspaceIdView {
    pub address: Seq<char>,
    pub request_id: u64,
}

impl View for WorkspaceId {
    type V = WorkspaceIdView;

    open spec fn view(&self) -> WorkspaceIdView {
        WorkspaceIdView { address: self.address@, request_id: self.request_id }
    }
}

/// Law: workspace names are request-unique — two requests with distinct
/// request ids never share a scratch workspace, even for the same contract.
pub proof fn lemma_workspace_request_unique(w1: WorkspaceIdView, w2: WorkspaceIdView)
    requires
        w1.request_id != w2.request_id,
    ensures
        w1 != w2,
{
}

/// What the datastore lookup produced.
pub enum LookupOutcome {
    /// A cached ABI document for the derived key.
    Hit { abi: String },
    /// No record for the derived key.
    Miss,
    /// The lookup itself failed (connectivity, query error).
    StoreError,
}

/// The mathematical value of a lookup outcome.
pub enum LookupOutcomeView {
    Hit { abi: Seq<char> },
    Miss,
    StoreError,
}

impl View for LookupOutcome {
    type V = LookupOutcomeView;

    open spec fn view(&self) -> LookupOutcomeView {
        match self {
            LookupOutcome::Hit { abi } => LookupOutcomeView::Hit { abi: abi@ },
            LookupOutcome::Miss => LookupOutcomeView::Miss,
            LookupOutcome::StoreError => LookupOutcomeView::StoreError,
        }
    }
}

/// What the decompiler invocation produced.
pub enum InvokeOutcome {
    /// The process could not be spawned.
    SpawnError,
    /// The process exited with a failure status.
    ExitError,
    /// The process exited successfully; `abi` is the content of the required
    /// artifact if it could be read, `source` the optional decompiled source.
    Exited { abi: Option<String>, source: Option<String> },
}

/// The mathematical value of an invocation outcome.
pub enum InvokeOutcomeView {
    SpawnError,
    ExitError,
    Exited { abi: Option<Seq<char>>, source: Option<Seq<char>> },
}

impl View for InvokeOutcome {
    type V = InvokeOutcomeView;

    open spec fn view(&self) -> InvokeOutcomeView {
        match self {
            InvokeOutcome::SpawnError => InvokeOutcomeView::SpawnError,
            InvokeOutcome::ExitError => InvokeOutcomeView::ExitError,
            InvokeOutcome::Exited { abi, source } => InvokeOutcomeView::Exited {
                abi: match abi {
                    Option::Some(a) => Option::Some(a@),
                    Option::None => Option::None,
                },
                source: match source {
                    Option::Some(s) => Option::Some(s@),
                    Option::None => Option::None,
                },
            },
        }
    }
}

/// The outcome of one outside task, handed back to the machine.
pub enum Event {
    LookupDone { outcome: LookupOutcome },
    InvokeDone { outcome: InvokeOutcome },
    PersistDone { ok: bool },
    CleanupDone,
}

/// The mathematical value of an event.
pub enum EventView {
    LookupDone { outcome: LookupOutcomeView },
    InvokeDone { outcome: InvokeOutcomeView },
    PersistDone { ok: bool },
    CleanupDone,
}

impl View for Event {
    type V = EventView;

    open spec fn view(&self) -> EventView {
        match self {
            Event::LookupDone { outcome } => EventView::LookupDone { outcome: outcome@ },
            Event::InvokeDone { outcome } => EventView::InvokeDone { outcome: outcome@ },
            Event::PersistDone { ok } => EventView::PersistDone { ok: *ok },
            Event::CleanupDone => EventView::CleanupDone,
        }
    }
}

/// An outside task the machine asks its caller to perform.
pub enum Action {
    /// Look the derived key up in the datastore.
    Lookup { address: String, fingerprint: String },
    /// Run the decompiler for this address and endpoint into the workspace.
    Invoke { address: String, endpoint: String, workspace: WorkspaceId },
    /// Upsert the record into the datastore (best effort).
    Persist { record: CacheRecord },
    /// Remove the scratch workspace (best effort).
    Cleanup { workspace: WorkspaceId },
    /// Send the response; the request is finished.
    Respond { response: Response },
}

/// The mathematical value of an action.
pub enum ActionView {
    Lookup { address: Seq<char>, fingerprint: Seq<char> },
    Invoke { address: Seq<char>, endpoint: Seq<char>, workspace: WorkspaceIdView },
    Persist { record: CacheRecordView },
    Cleanup { workspace: WorkspaceIdView },
    Respond { response: ResponseView },
}

impl View for Action {
    type V = ActionView;

    open spec fn view(&self) -> ActionView {
        match self {
            Action::Lookup { address, fingerprint } => ActionView::Lookup {
                address: address@,
                fingerprint: fingerprint@,
            },
            Action::Invoke { address, endpoint, workspace } => ActionView::Invoke {
                address: address@,
                endpoint: endpoint@,
                workspace: workspace@,
            },
            Action::Persist { record } => ActionView::Persist { record: record@ },
            Action::Cleanup { workspace } => ActionView::Cleanup { workspace: workspace@ },
            Action::Respond { response } => ActionView::Respond { response: response@ },
        }
    }
}

/// Where the machine stands: which outside task it awaits, or the response it
/// finished with.
pub enum Phase {
    AwaitingLookup,
    AwaitingInvoke,
    AwaitingPersist { abi: String },
    AwaitingCleanup { outcome: Response },
    Done { response: Response },
}

/// The mathematical value of a phase.
pub enum PhaseView {
    AwaitingLookup,
    AwaitingInvoke,
    AwaitingPersist { abi: Seq<char> },
    AwaitingCleanup { outcome: ResponseView },
    Done { response: ResponseView },
}

impl View for Phase {
    type V = PhaseView;

    open spec fn view(&self) -> PhaseView {
        match self {
            Phase::AwaitingLookup => PhaseView::AwaitingLookup,
            Phase::AwaitingInvoke => PhaseView::AwaitingInvoke,
            Phase::AwaitingPersist { abi } => PhaseView::AwaitingPersist { abi: abi@ },
            Phase::AwaitingCleanup { outcome } => PhaseView::AwaitingCleanup { outcome: outcome@ },
            Phase::Done { response } => PhaseView::Done { response: response@ },
        }
    }
}

/// One in-flight request.
pub struct Orchestrator {
    /// The contract address, verbatim.
    pub address: String,
    /// The normalized RPC endpoint handed to the decompiler.
    pub endpoint: String,
    /// The endpoint fingerprint, the second half of the cache key.
    pub fingerprint: String,
    /// A request-unique suffix for the scratch workspace name.
    pub request_id: u64,
    pub phase: Phase,
}

/// The mathematical value of an in-flight request.
pub struct OrchestratorView {
    pub address: Seq<char>,
    pub endpoint: Seq<char>,
    pub fingerprint: Seq<char>,
    pub request_id: u64,
    pub phase: PhaseView,
}

impl View for Orchestrator {
    type V = OrchestratorView;

    open spec fn view(&self) -> OrchestratorView {
        OrchestratorView {
            address: self.address@,
            endpoint: self.endpoint@,
            fingerprint: self.fingerprint@,
            request_id: self.request_id,
            phase: self.phase@,
        }
    }
}

/// The workspace a request owns when it has one.
pub open spec fn spec_workspace(s: OrchestratorView) -> WorkspaceIdView {
    WorkspaceIdView { address: s.address, request_id: s.request_id }
}

/// The record a request persists for a validated artifact.
pub open spec fn spec_record(
    s: OrchestratorView,
    abi: Seq<char>,
    source: Option<Seq<char>>,
) -> CacheRecordView {
    CacheRecordView {
        contract_address: s.address,
        rpc_url_hash: s.fingerprint,
        abi_json: abi,
        decompilation_output: source,
    }
}

/// Whether the phase owns a scratch workspace whose removal has not yet been
/// requested.
pub open spec fn ws_pending(phase: PhaseView) -> bool {
    phase is AwaitingInvoke || phase is AwaitingPersist
}

/// Whether the event is the one the phase awaits.
pub open spec fn event_fits(phase: PhaseView, e: EventView) -> bool {
    match e {
        EventView::LookupDone { .. } => phase is AwaitingLookup,
        EventView::InvokeDone { .. } => phase is AwaitingInvoke,
        EventView::PersistDone { .. } => phase is AwaitingPersist,
        EventView::CleanupDone => phase is AwaitingCleanup,
    }
}

/// The same request, standing in another phase.
pub open spec fn with_phase(s: OrchestratorView, phase: PhaseView) -> OrchestratorView {
    OrchestratorView { phase, ..s }
}

/// A failing transition: record the failure and request workspace removal.
pub open spec fn spec_fail_cleanup(s: OrchestratorView, error: AbiError) -> (OrchestratorView,
    ActionView) {
    (
        with_phase(s, PhaseView::AwaitingCleanup { outcome: ResponseView::Failure { error } }),
        ActionView::Cleanup { workspace: spec_workspace(s) },
    )
}

/// The machine at the start of a request: missing or empty rpc_url is rejected
/// outright; otherwise the key is derived and the datastore is consulted.
pub open spec fn spec_start(address: Seq<char>, rpc_url: Option<Seq<char>>, request_id: u64) -> (
    OrchestratorView,
    ActionView,
) {
    match rpc_url {
        Option::Some(u) => if u.len() > 0 {
            let s = OrchestratorView {
                address: address,
                endpoint: spec_normalize(u),
                fingerprint: spec_fingerprint(u),
                request_id: request_id,
                phase: PhaseView::AwaitingLookup,
            };
            (s, ActionView::Lookup { address: address, fingerprint: spec_fingerprint(u) })
        } else {
            spec_start_rejected(address, request_id)
        },
        Option::None => spec_start_rejected(address, request_id),
    }
}

/// The machine for a request rejected before any work: done, with a
/// BadRequest failure, and no workspace ever created.
pub open spec fn spec_start_rejected(address: Seq<char>, request_id: u64) -> (OrchestratorView,
    ActionView) {
    let response = ResponseView::Failure { error: AbiError::BadRequest };
    (
        OrchestratorView {
            address: address,
            endpoint: Seq::empty(),
            fingerprint: Seq::empty(),
            request_id: request_id,
            phase: PhaseView::Done { response },
        },
        ActionView::Respond { response },
    )
}

/// The transition relation of the cache-aside state machine.
pub open spec fn spec_step(s: OrchestratorView, e: EventView) -> (OrchestratorView, ActionView)
    recommends
        event_fits(s.phase, e),
{
    match e {
        EventView::LookupDone { outcome } => match outcome {
            LookupOutcomeView::Hit { abi } => (
                with_phase(s, PhaseView::Done { response: ResponseView::Success { abi } }),
                ActionView::Respond { response: ResponseView::Success { abi } },
            ),
            LookupOutcomeView::Miss => spec_to_invoke(s),
            LookupOutcomeView::StoreError => spec_to_invoke(s),
        },
        EventView::InvokeDone { outcome } => match outcome {
            InvokeOutcomeView::SpawnError => spec_fail_cleanup(s, AbiError::SpawnFailure),
            InvokeOutcomeView::ExitError => spec_fail_cleanup(s, AbiError::ExitFailure),
            InvokeOutcomeView::Exited { abi, source } => match abi {
                Option::None => spec_fail_cleanup(s, AbiError::ArtifactMissing),
                Option::Some(a) => if json_valid(a) {
                    (
                        with_phase(s, PhaseView::AwaitingPersist { abi: a }),
                        ActionView::Persist { record: spec_record(s, a, source) },
                    )
                } else {
                    spec_fail_cleanup(s, AbiError::ArtifactInvalid)
                },
            },
        },
        EventView::PersistDone { .. } => match s.phase {
            PhaseView::AwaitingPersist { abi } => (
                with_phase(
                    s,
                    PhaseView::AwaitingCleanup { outcome: ResponseView::Success { abi } },
                ),
                ActionView::Cleanup { workspace: spec_workspace(s) },
            ),
            // ruled out by event_fits; any total value will do
            _ => (s, ActionView::Respond { response: ResponseView::Failure { error: AbiError::BadRequest } }),
        },
        EventView::CleanupDone => match s.phase {
            PhaseView::AwaitingCleanup { outcome } => (
                with_phase(s, PhaseView::Done { response: outcome }),
                ActionView::Respond { response: outcome },
            ),
            // ruled out by event_fits; any total value will do
            _ => (s, ActionView::Respond { response: ResponseView::Failure { error: AbiError::BadRequest } }),
        },
    }
}

/// A cache miss (or an unavailable store, handled the same): ask for the
/// decompiler to be run into this request's workspace.
pub open spec fn spec_to_invoke(s: OrchestratorView) -> (OrchestratorView, ActionView) {
    (
        with_phase(s, PhaseView::AwaitingInvoke),
        ActionView::Invoke {
            address: s.address,
            endpoint: s.endpoint,
            workspace: spec_workspace(s),
        },
    )
}

impl Orchestrator {
    /// Begin a request. A missing or empty rpc_url is a caller error: the
    /// machine is born finished with a BadRequest response and no side
    /// effects. Otherwise the cache key is derived and the first action asks
    /// for the datastore lookup.
    pub fn start(address: &str, rpc_url: Option<&str>, request_id: u64) -> (r: (
        Orchestrator,
        Action,
    ))
        requires
            address@.len() > 0,
        ensures
            r.0@ == spec_start(address@, spec_opt_str(rpc_url), request_id).0,
            r.1@ == spec_start(address@, spec_opt_str(rpc_url), request_id).1,
    {
        match rpc_url {
            Option::Some(u) => {
                if u.is_empty() {
                    Self::start_rejected(address, request_id)
                } else {
                    let endpoint = normalize_endpoint(u);
                    let fingerprint = endpoint_fingerprint(u);
                    let action = Action::Lookup {
                        address: address.to_owned(),
                        fingerprint: fingerprint.clone(),
                    };
                    let orch = Orchestrator {
                        address: address.to_owned(),
                        endpoint,
                        fingerprint,
                        request_id,
                        phase: Phase::AwaitingLookup,
                    };
                    (orch, action)
                }
            },
            Option::None => Self::start_rejected(address, request_id),
        }
    }

    /// The rejected-up-front machine.
    fn start_rejected(address: &str, request_id: u64) -> (r: (Orchestrator, Action))
        ensures
            r.0@ == spec_start_rejected(address@, request_id).0,
            r.1@ == spec_start_rejected(address@, request_id).1,
    {
        let orch = Orchestrator {
            address: address.to_owned(),
            endpoint: String::new(),
            fingerprint: String::new(),
            request_id,
            phase: Phase::Done {
                response: Response::Failure { error: AbiError::BadRequest },
            },
        };
        (orch, Action::Respond { response: Response::Failure { error: AbiError::BadRequest } })
    }

    /// Whether this event is the one the current phase awaits.
    pub fn accepts(&self, event: &Event) -> (b: bool)
        ensures
            b == event_fits(self@.phase, event@),
    {
        match (&self.phase, event) {
            (Phase::AwaitingLookup, Event::LookupDone { .. }) => true,
            (Phase::AwaitingInvoke, Event::InvokeDone { .. }) => true,
            (Phase::AwaitingPersist { .. }, Event::PersistDone { .. }) => true,
            (Phase::AwaitingCleanup { .. }, Event::CleanupDone) => true,
            _ => false,
        }
    }

    /// Whether the request is finished.
    pub fn is_done(&self) -> (b: bool)
        ensures
            b == (self@.phase is Done),
    {
        match &self.phase {
            Phase::Done { .. } => true,
            _ => false,
        }
    }

    /// Feed the outcome of the awaited outside task to the machine; it moves
    /// to its next phase and hands back the next task.
    pub fn step(&mut self, event: Event) -> (a: Action)
        requires
            event_fits(old(self)@.phase, event@),
        ensures
            final(self)@ == spec_step(old(self)@, event@).0,
            a@ == spec_step(old(self)@, event@).1,
    {
        match event {
            Event::LookupDone { outcome } => match outcome {
                LookupOutcome::Hit { abi } => {
                    let abi_for_phase = abi.clone();
                    self.phase = Phase::Done {
                        response: Response::Success { abi: abi_for_phase },
                    };
                    Action::Respond { response: Response::Success { abi } }
                },
                LookupOutcome::Miss => self.to_invoke(),
                LookupOutcome::StoreError => self.to_invoke(),
            },
            Event::InvokeDone { outcome } => match outcome {
                InvokeOutcome::SpawnError => self.fail_cleanup(AbiError::SpawnFailure),
                InvokeOutcome::ExitError => self.fail_cleanup(AbiError::ExitFailure),
                InvokeOutcome::Exited { abi, source } => match abi {
                    Option::None => self.fail_cleanup(AbiError::ArtifactMissing),
                    Option::Some(a) => {
                        if is_well_formed_json(a.as_str()) {
                            let record = CacheRecord {
                                contract_address: self.address.clone(),
                                rpc_url_hash: self.fingerprint.clone(),
                                abi_json: a.clone(),
                                decompilation_output: source,
                            };
                            self.phase = Phase::AwaitingPersist { abi: a };
                            Action::Persist { record }
                        } else {
                            self.fail_cleanup(AbiError::ArtifactInvalid)
                        }
                    },
                },
            },
            Event::PersistDone { ok: _ } => {
                let abi: String = match &self.phase {
                    Phase::AwaitingPersist { abi } => abi.clone(),
                    _ => unreached(),
                };
                self.phase = Phase::AwaitingCleanup {
                    outcome: Response::Success { abi },
                };
                Action::Cleanup { workspace: self.workspace() }
            },
            Event::CleanupDone => {
                let response: Response = match &self.phase {
                    Phase::AwaitingCleanup { outcome } => clone_response(outcome),
                    _ => unreached(),
                };
                let response_for_action = clone_response(&response);
                self.phase = Phase::Done { response };
                Action::Respond { response: response_for_action }
            },
        }
    }

    /// The workspace this request owns.
    fn workspace(&self) -> (w: WorkspaceId)
        ensures
            w@ == spec_workspace(self@),
    {
        WorkspaceId { address: self.address.clone(), request_id: self.request_id }
    }

    /// Move to cleanup after a failure.
    fn fail_cleanup(&mut self, error: AbiError) -> (a: Action)
        ensures
            final(self)@ == spec_fail_cleanup(old(self)@, error).0,
            a@ == spec_fail_cleanup(old(self)@, error).1,
    {
        let workspace = self.workspace();
        self.phase = Phase::AwaitingCleanup { outcome: Response::Failure { error } };
        Action::Cleanup { workspace }
    }

    /// Move to invocation after a miss (or an unavailable store).
    fn to_invoke(&mut self) -> (a: Action)
        ensures
            final(self)@ == spec_to_invoke(old(self)@).0,
            a@ == spec_to_invoke(old(self)@).1,
    {
        let workspace = self.workspace();
        self.phase = Phase::AwaitingInvoke;
        Action::Invoke {
            address: self.address.clone(),
            endpoint: self.endpoint.clone(),
            workspace,
        }
    }
}

/// The view of an optional borrowed string.
pub open spec fn spec_opt_str(s: Option<&str>) -> Option<Seq<char>> {
    match s {
        Option::Some(u) => Option::Some(u@),
        Option::None => Option::None,
    }
}

/// Copy a response.
fn clone_response(r: &Response) -> (c: Response)
    ensures
        c@ == r@,
{
    match r {
        Response::Success { abi } => Response::Success { abi: abi.clone() },
        Response::Failure { error } => Response::Failure { error: *error },
    }
}

} // verus!
