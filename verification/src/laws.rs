//! Properties of the cache-aside state machine that hold of every admissible
//! run, stated over the machine's transition relation and proved once and for
//! all.

use crate::jsonval::json_valid;
use crate::pipeline::{
    event_fits, spec_record, spec_start, spec_step, spec_workspace, ws_pending, AbiError,
    ActionView, EventView, InvokeOutcomeView, LookupOutcomeView, OrchestratorView, PhaseView,
    ResponseView,
};
use vstd::prelude::*;

verus! {

/// Whether a whole event sequence is admissible from `s`: each event is the
/// one its phase awaits.
pub open spec fn events_fit(s: OrchestratorView, events: Seq<EventView>) -> bool
    decreases events.len(),
{
    events.len() == 0 || (event_fits(s.phase, events[0]) && events_fit(
        spec_step(s, events[0]).0,
        events.drop_first(),
    ))
}

/// The machine after a run, together with every action it requested along the
/// way, in order.
pub open spec fn spec_run(s: OrchestratorView, events: Seq<EventView>) -> (OrchestratorView, Seq<
    ActionView,
>)
    decreases events.len(),
{
    if events.len() == 0 {
        (s, Seq::empty())
    } else {
        let next = spec_step(s, events[0]);
        let rest = spec_run(next.0, events.drop_first());
        (rest.0, seq![next.1] + rest.1)
    }
}

/// How many workspace creations a run requested.
pub open spec fn count_invokes(actions: Seq<ActionView>) -> int
    decreases actions.len(),
{
    if actions.len() == 0 {
        0
    } else {
        (if actions[0] is Invoke {
            1int
        } else {
            0int
        }) + count_invokes(actions.drop_first())
    }
}

/// How many workspace removals a run requested.
pub open spec fn count_cleanups(actions: Seq<ActionView>) -> int
    decreases actions.len(),
{
    if actions.len() == 0 {
        0
    } else {
        (if actions[0] is Cleanup {
            1int
        } else {
            0int
        }) + count_cleanups(actions.drop_first())
    }
}

/// How many workspaces a phase still owns without having requested their
/// removal: one or none.
pub open spec fn pending_count(phase: PhaseView) -> int {
    if ws_pending(phase) {
        1
    } else {
        0
    }
}

/// Each single step keeps the workspace books balanced: it requests a
/// creation exactly when it enters a phase that owns one, and a removal
/// exactly when it leaves one.
pub proof fn lemma_step_workspace_balance(s: OrchestratorView, e: EventView)
    requires
        event_fits(s.phase, e),
    ensures
        ({
            let (s2, a) = spec_step(s, e);
            (if a is Invoke {
                1int
            } else {
                0int
            }) - (if a is Cleanup {
                1int
            } else {
                0int
            }) == pending_count(s2.phase) - pending_count(s.phase)
        }),
{
}

proof fn lemma_count_cons(a: ActionView, rest: Seq<ActionView>)
    ensures
        count_invokes(seq![a] + rest) == (if a is Invoke {
            1int
        } else {
            0int
        }) + count_invokes(rest),
        count_cleanups(seq![a] + rest) == (if a is Cleanup {
            1int
        } else {
            0int
        }) + count_cleanups(rest),
{
    assert((seq![a] + rest).drop_first() =~= rest);
    assert((seq![a] + rest)[0] == a);
}

/// Law (cleanup invariant): along any admissible run, the number of workspace
/// creations requested minus the number of removals requested is exactly the
/// number of workspaces the final phase still owns, less those the starting
/// phase already owned.
pub proof fn lemma_run_workspace_balance(s: OrchestratorView, events: Seq<EventView>)
    requires
        events_fit(s, events),
    ensures
        ({
            let (sf, actions) = spec_run(s, events);
            count_invokes(actions) - count_cleanups(actions) == pending_count(sf.phase)
                - pending_count(s.phase)
        }),
    decreases events.len(),
{
    if events.len() > 0 {
        let next = spec_step(s, events[0]);
        lemma_step_workspace_balance(s, events[0]);
        lemma_run_workspace_balance(next.0, events.drop_first());
        lemma_count_cons(next.1, spec_run(next.0, events.drop_first()).1);
    }
}

/// Law (cleanup invariant, at completion): a request that starts fresh and
/// runs to its response has requested the removal of every scratch workspace
/// whose creation it requested — whatever the outcome, none is left behind.
pub proof fn lemma_done_leaves_no_workspace(s: OrchestratorView, events: Seq<EventView>)
    requires
        events_fit(s, events),
        s.phase is AwaitingLookup || s.phase is Done,
        spec_run(s, events).0.phase is Done,
    ensures
        count_invokes(spec_run(s, events).1) == count_cleanups(spec_run(s, events).1),
{
    lemma_run_workspace_balance(s, events);
}

/// Law (missing parameter): a request without an rpc_url starts finished,
/// with a BadRequest failure and an immediate respond action; a finished
/// machine accepts no event, so no admissible run requests any further action
/// — in particular the decompiler is never invoked and no workspace is ever
/// created.
pub proof fn lemma_missing_rpc_url_never_invokes(
    address: Seq<char>,
    request_id: u64,
    events: Seq<EventView>,
)
    requires
        events_fit(spec_start(address, Option::None, request_id).0, events),
    ensures
        spec_start(address, Option::None, request_id).0.phase == (PhaseView::Done {
            response: ResponseView::Failure { error: AbiError::BadRequest },
        }),
        spec_start(address, Option::None, request_id).1 == (ActionView::Respond {
            response: ResponseView::Failure { error: AbiError::BadRequest },
        }),
        spec_run(spec_start(address, Option::None, request_id).0, events).1 === Seq::empty(),
{
    let s = spec_start(address, Option::None, request_id).0;
    if events.len() > 0 {
        assert(!event_fits(s.phase, events[0]));
    }
}

/// Law (cache hit): a hit responds at once with the stored document verbatim,
/// finishes the request, and owns no workspace — the decompiler is not
/// reached.
pub proof fn lemma_cache_hit_responds_verbatim(s: OrchestratorView, abi: Seq<char>)
    requires
        s.phase is AwaitingLookup,
    ensures
        spec_step(s, EventView::LookupDone { outcome: LookupOutcomeView::Hit { abi } }).1
            == (ActionView::Respond { response: ResponseView::Success { abi } }),
        spec_step(s, EventView::LookupDone { outcome: LookupOutcomeView::Hit { abi } }).0.phase
            == (PhaseView::Done { response: ResponseView::Success { abi } }),
        !ws_pending(spec_step(s, EventView::LookupDone { outcome: LookupOutcomeView::Hit { abi } }).0.phase),
{
}

/// Law (soft store failures): datastore health never alters behavior — a
/// failed lookup is handled exactly like a miss, and the transition after a
/// failed upsert is exactly the one after a successful upsert.
pub proof fn lemma_store_failures_soft(s: OrchestratorView)
    ensures
        spec_step(s, EventView::LookupDone { outcome: LookupOutcomeView::StoreError })
            == spec_step(s, EventView::LookupDone { outcome: LookupOutcomeView::Miss }),
        spec_step(s, EventView::PersistDone { ok: false }) == spec_step(
            s,
            EventView::PersistDone { ok: true },
        ),
{
}

/// Law (no unvalidated persistence): a persist is only ever requested for an
/// artifact that is well-formed JSON, and always under this request's own
/// derived key; an invalid artifact instead moves straight to cleanup.
pub proof fn lemma_persist_only_validated(s: OrchestratorView, e: EventView)
    requires
        event_fits(s.phase, e),
    ensures
        spec_step(s, e).1 matches ActionView::Persist { record } ==> {
            &&& json_valid(record.abi_json)
            &&& record.contract_address == s.address
            &&& record.rpc_url_hash == s.fingerprint
        },
{
}

/// Law (miss, then success): from a fresh lookup, a miss followed by a
/// successful invocation with a well-formed artifact, the persistence
/// acknowledgment (successful or not), and the cleanup acknowledgment ends
/// the request in a success carrying that very artifact — after requesting
/// exactly one invocation, one persist of the artifact under the request's
/// own key, one cleanup, and the response.
pub proof fn lemma_miss_then_success_run(
    s: OrchestratorView,
    abi: Seq<char>,
    source: Option<Seq<char>>,
    ok: bool,
)
    requires
        s.phase is AwaitingLookup,
        json_valid(abi),
    ensures
        ({
            let events = seq![
                EventView::LookupDone { outcome: LookupOutcomeView::Miss },
                EventView::InvokeDone {
                    outcome: InvokeOutcomeView::Exited { abi: Option::Some(abi), source },
                },
                EventView::PersistDone { ok },
                EventView::CleanupDone,
            ];
            &&& events_fit(s, events)
            &&& spec_run(s, events).0.phase == (PhaseView::Done {
                response: ResponseView::Success { abi },
            })
            &&& spec_run(s, events).1 =~= seq![
                ActionView::Invoke {
                    address: s.address,
                    endpoint: s.endpoint,
                    workspace: spec_workspace(s),
                },
                ActionView::Persist { record: spec_record(s, abi, source) },
                ActionView::Cleanup { workspace: spec_workspace(s) },
                ActionView::Respond { response: ResponseView::Success { abi } },
            ]
        }),
{
    reveal_with_fuel(spec_run, 6);
    reveal_with_fuel(events_fit, 6);
    let e1 = EventView::LookupDone { outcome: LookupOutcomeView::Miss };
    let e2 = EventView::InvokeDone {
        outcome: InvokeOutcomeView::Exited { abi: Option::Some(abi), source },
    };
    let e3 = EventView::PersistDone { ok };
    let e4 = EventView::CleanupDone;
    let events = seq![e1, e2, e3, e4];
    let s1 = spec_step(s, e1).0;
    let s2 = spec_step(s1, e2).0;
    let s3 = spec_step(s2, e3).0;
    assert(events.drop_first() =~= seq![e2, e3, e4]);
    assert(seq![e2, e3, e4].drop_first() =~= seq![e3, e4]);
    assert(seq![e3, e4].drop_first() =~= seq![e4]);
    assert(seq![e4].drop_first() =~= Seq::<EventView>::empty());
    assert(spec_run(s3, seq![e4]).1 =~= seq![spec_step(s3, e4).1]);
    assert(spec_run(s2, seq![e3, e4]).1 =~= seq![spec_step(s2, e3).1, spec_step(s3, e4).1]);
    assert(spec_run(s1, seq![e2, e3, e4]).1 =~= seq![
        spec_step(s1, e2).1,
        spec_step(s2, e3).1,
        spec_step(s3, e4).1,
    ]);
    assert(spec_run(s, events).1 =~= seq![
        spec_step(s, e1).1,
        spec_step(s1, e2).1,
        spec_step(s2, e3).1,
        spec_step(s3, e4).1,
    ]);
}

/// Law (invalid artifact): a successful exit whose artifact is not
/// well-formed JSON requests no persistence: it requests removal of this
/// request's workspace and ends in an ArtifactInvalid failure.
pub proof fn lemma_invalid_artifact_not_persisted(
    s: OrchestratorView,
    abi: Seq<char>,
    source: Option<Seq<char>>,
)
    requires
        s.phase is AwaitingInvoke,
        !json_valid(abi),
    ensures
        ({
            let e = EventView::InvokeDone {
                outcome: crate::pipeline::InvokeOutcomeView::Exited {
                    abi: Option::Some(abi),
                    source,
                },
            };
            &&& spec_step(s, e).1 == (ActionView::Cleanup { workspace: spec_workspace(s) })
            &&& spec_step(s, e).0.phase == (PhaseView::AwaitingCleanup {
                outcome: ResponseView::Failure { error: AbiError::ArtifactInvalid },
            })
        }),
{
}

} // verus!
