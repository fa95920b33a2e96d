//! The session-resume flow as an explicit state machine.
//!
//! Resuming runs outside work — consulting the registry, spawning and
//! initializing a process, issuing the load call — between decisions. The
//! decisions live here as a pure step function from phase and observed
//! event to next phase and prescribed action; the embedding application
//! performs each action and reports what happened. The stale-lock recovery
//! rule — clear the lock artifact and retry the load exactly once — is a
//! transition of this machine and proved about it below.

use vstd::prelude::*;
use crate::engine::AcpError;
use crate::text::contains_seq;

verus! {

/// Where a resume flow stands.
pub enum ResumePhase {
    /// Nothing done yet: the registry decides.
    Deciding,
    /// A process must be (re)spawned and initialized; `retried` records
    /// whether this is already the stale-lock retry.
    Spawning { retried: bool },
    /// A load call is outstanding on the spawned process.
    Loading { handle: u64, retried: bool },
    /// The flow ended, in success or failure.
    Done,
}

/// What the embedding application observed while performing the last
/// prescribed action.
pub enum ResumeEvent {
    /// The registry already holds the session under this handle.
    Registered { handle: u64 },
    /// The registry does not hold the session.
    Unregistered,
    /// A process was spawned and initialized.
    SpawnOk { handle: u64 },
    /// Spawning or initializing failed.
    SpawnFail { error: AcpError },
    /// The load call succeeded.
    LoadOk,
    /// The load call failed.
    LoadFail { error: AcpError },
}

/// What the flow prescribes next.
pub enum ResumeAction {
    /// Return the existing entry; no process is spawned.
    UseExisting { handle: u64 },
    /// Spawn a fresh process and initialize the protocol on it.
    SpawnProcess,
    /// Issue the load call on the given process.
    IssueLoad { handle: u64 },
    /// Discard the failed process, remove the session's on-disk lock
    /// artifact, and spawn a replacement.
    ClearStaleLockAndRespawn,
    /// Loading succeeded: record the session under this handle and return.
    Register { handle: u64 },
    /// The flow failed; surface this error unchanged.
    Fail { error: AcpError },
    /// The event does not belong to the current phase; nothing happens.
    Ignore,
}

/// A load failure that means the session is already active in another
/// process — the trigger for stale-lock recovery.
pub open spec fn stale_load_error(e: AcpError) -> bool {
    e matches AcpError::Protocol { message } && contains_seq(
        message@,
        "active in another process"@,
    )
}

/// Whether a load failure is the stale-lock condition.
pub fn is_stale_load_error(e: &AcpError) -> (r: bool)
    ensures
        r == stale_load_error(*e),
{
    match e {
        AcpError::Protocol { message } => crate::text::str_contains(
            message.as_str(),
            "active in another process",
        ),
        _ => false,
    }
}

/// The transition relation of the resume flow.
pub open spec fn resume_transition(
    p: ResumePhase,
    e: ResumeEvent,
    p2: ResumePhase,
    a: ResumeAction,
) -> bool {
    match (p, e) {
        (ResumePhase::Deciding, ResumeEvent::Registered { handle }) => p2 == ResumePhase::Done
            && a == (ResumeAction::UseExisting { handle }),
        (ResumePhase::Deciding, ResumeEvent::Unregistered) => p2 == (ResumePhase::Spawning {
            retried: false,
        }) && a == ResumeAction::SpawnProcess,
        (ResumePhase::Spawning { retried }, ResumeEvent::SpawnOk { handle }) => p2
            == (ResumePhase::Loading { handle, retried }) && a == (ResumeAction::IssueLoad {
            handle,
        }),
        (ResumePhase::Spawning { retried }, ResumeEvent::SpawnFail { error }) => p2
            == ResumePhase::Done && a == (ResumeAction::Fail { error }),
        (ResumePhase::Loading { handle, retried }, ResumeEvent::LoadOk) => p2 == ResumePhase::Done
            && a == (ResumeAction::Register { handle }),
        (ResumePhase::Loading { handle, retried }, ResumeEvent::LoadFail { error }) => if !retried
            && stale_load_error(error) {
            p2 == (ResumePhase::Spawning { retried: true }) && a
                == ResumeAction::ClearStaleLockAndRespawn
        } else {
            p2 == ResumePhase::Done && a == (ResumeAction::Fail { error })
        },
        _ => p2 == p && a == ResumeAction::Ignore,
    }
}

/// Advance the resume flow by one observed event.
pub fn resume_step(phase: ResumePhase, event: ResumeEvent) -> (r: (ResumePhase, ResumeAction))
    ensures
        resume_transition(phase, event, r.0, r.1),
{
    match (phase, event) {
        (ResumePhase::Deciding, ResumeEvent::Registered { handle }) => (
            ResumePhase::Done,
            ResumeAction::UseExisting { handle },
        ),
        (ResumePhase::Deciding, ResumeEvent::Unregistered) => (
            ResumePhase::Spawning { retried: false },
            ResumeAction::SpawnProcess,
        ),
        (ResumePhase::Spawning { retried }, ResumeEvent::SpawnOk { handle }) => (
            ResumePhase::Loading { handle, retried },
            ResumeAction::IssueLoad { handle },
        ),
        (ResumePhase::Spawning { retried: _ }, ResumeEvent::SpawnFail { error }) => (
            ResumePhase::Done,
            ResumeAction::Fail { error },
        ),
        (ResumePhase::Loading { handle, retried: _ }, ResumeEvent::LoadOk) => (
            ResumePhase::Done,
            ResumeAction::Register { handle },
        ),
        (ResumePhase::Loading { handle: _, retried }, ResumeEvent::LoadFail { error }) => {
            if !retried && is_stale_load_error(&error) {
                (ResumePhase::Spawning { retried: true }, ResumeAction::ClearStaleLockAndRespawn)
            } else {
                (ResumePhase::Done, ResumeAction::Fail { error })
            }
        },
        (p, _) => (p, ResumeAction::Ignore),
    }
}

/// A whole run of the flow: from `p0`, each event steps the machine and
/// prescribes the matching action.
pub open spec fn resume_trace(
    p0: ResumePhase,
    events: Seq<ResumeEvent>,
    phases: Seq<ResumePhase>,
    actions: Seq<ResumeAction>,
) -> bool
    decreases events.len(),
{
    &&& phases.len() == events.len()
    &&& actions.len() == events.len()
    &&& events.len() > 0 ==> {
        &&& resume_transition(p0, events[0], phases[0], actions[0])
        &&& resume_trace(
            phases[0],
            events.drop_first(),
            phases.drop_first(),
            actions.drop_first(),
        )
    }
}

proof fn lemma_done_traps(events: Seq<ResumeEvent>, phases: Seq<ResumePhase>, actions: Seq<
    ResumeAction,
>)
    requires
        resume_trace(ResumePhase::Done, events, phases, actions),
    ensures
        forall|i: int| 0 <= i < actions.len() ==> actions[i] == ResumeAction::Ignore,
    decreases events.len(),
{
    if events.len() > 0 {
        assert(actions[0] == ResumeAction::Ignore);
        assert(phases[0] == ResumePhase::Done);
        lemma_done_traps(events.drop_first(), phases.drop_first(), actions.drop_first());
        assert forall|i: int| 0 <= i < actions.len() implies actions[i]
            == ResumeAction::Ignore by {
            if i >= 1 {
                assert(actions.drop_first()[i - 1] == actions[i]);
            }
        }
    }
}

/// Resuming an id the registry already holds uses the existing entry and
/// nothing else: the one prescribed action is to return it, and no action
/// of the whole run spawns a process or touches a lock artifact.
pub proof fn lemma_resume_registered_never_spawns(
    handle: u64,
    events: Seq<ResumeEvent>,
    phases: Seq<ResumePhase>,
    actions: Seq<ResumeAction>,
)
    requires
        events.len() >= 1,
        events[0] == (ResumeEvent::Registered { handle }),
        resume_trace(ResumePhase::Deciding, events, phases, actions),
    ensures
        actions[0] == (ResumeAction::UseExisting { handle }),
        forall|i: int|
            0 <= i < actions.len() ==> actions[i] != ResumeAction::SpawnProcess && actions[i]
                != ResumeAction::ClearStaleLockAndRespawn,
{
    assert(resume_transition(ResumePhase::Deciding, events[0], phases[0], actions[0]));
    assert(phases[0] == ResumePhase::Done);
    lemma_done_traps(events.drop_first(), phases.drop_first(), actions.drop_first());
    assert forall|i: int| 0 <= i < actions.len() implies actions[i] != ResumeAction::SpawnProcess
        && actions[i] != ResumeAction::ClearStaleLockAndRespawn by {
        if i >= 1 {
            assert(actions.drop_first()[i - 1] == actions[i]);
        }
    }
}

/// The stale-lock path: when the registry misses, the first load fails with
/// the already-active condition and the retried load fails again, the run
/// prescribes exactly one lock removal, exactly two spawns in all (the
/// original and the single replacement), exactly two load attempts, and
/// ends by surfacing the second failure unchanged.
pub proof fn lemma_resume_stale_lock_single_retry(
    h1: u64,
    h2: u64,
    e1: AcpError,
    e2: AcpError,
    events: Seq<ResumeEvent>,
    phases: Seq<ResumePhase>,
    actions: Seq<ResumeAction>,
)
    requires
        stale_load_error(e1),
        events =~= seq![
            ResumeEvent::Unregistered,
            ResumeEvent::SpawnOk { handle: h1 },
            ResumeEvent::LoadFail { error: e1 },
            ResumeEvent::SpawnOk { handle: h2 },
            ResumeEvent::LoadFail { error: e2 },
        ],
        resume_trace(ResumePhase::Deciding, events, phases, actions),
    ensures
        actions =~= seq![
            ResumeAction::SpawnProcess,
            ResumeAction::IssueLoad { handle: h1 },
            ResumeAction::ClearStaleLockAndRespawn,
            ResumeAction::IssueLoad { handle: h2 },
            ResumeAction::Fail { error: e2 },
        ],
{
    let ev1 = events.drop_first();
    let ph1 = phases.drop_first();
    let ac1 = actions.drop_first();
    let ev2 = ev1.drop_first();
    let ph2 = ph1.drop_first();
    let ac2 = ac1.drop_first();
    let ev3 = ev2.drop_first();
    let ph3 = ph2.drop_first();
    let ac3 = ac2.drop_first();
    let ev4 = ev3.drop_first();
    let ph4 = ph3.drop_first();
    let ac4 = ac3.drop_first();
    assert(events.len() == 5);
    assert(resume_transition(ResumePhase::Deciding, events[0], phases[0], actions[0]));
    assert(actions[0] == ResumeAction::SpawnProcess);
    assert(phases[0] == (ResumePhase::Spawning { retried: false }));
    assert(resume_trace(phases[0], ev1, ph1, ac1));
    assert(ev1[0] == events[1]);
    assert(resume_transition(phases[0], ev1[0], ph1[0], ac1[0]));
    assert(ac1[0] == (ResumeAction::IssueLoad { handle: h1 }));
    assert(ph1[0] == (ResumePhase::Loading { handle: h1, retried: false }));
    assert(resume_trace(ph1[0], ev2, ph2, ac2));
    assert(ev2[0] == events[2]);
    assert(resume_transition(ph1[0], ev2[0], ph2[0], ac2[0]));
    assert(ac2[0] == ResumeAction::ClearStaleLockAndRespawn);
    assert(ph2[0] == (ResumePhase::Spawning { retried: true }));
    assert(resume_trace(ph2[0], ev3, ph3, ac3));
    assert(ev3[0] == events[3]);
    assert(resume_transition(ph2[0], ev3[0], ph3[0], ac3[0]));
    assert(ac3[0] == (ResumeAction::IssueLoad { handle: h2 }));
    assert(ph3[0] == (ResumePhase::Loading { handle: h2, retried: true }));
    assert(resume_trace(ph3[0], ev4, ph4, ac4));
    assert(ev4[0] == events[4]);
    assert(resume_transition(ph3[0], ev4[0], ph4[0], ac4[0]));
    assert(ac4[0] == (ResumeAction::Fail { error: e2 }));
    assert(actions[1] == ac1[0]);
    assert(actions[2] == ac2[0]);
    assert(actions[3] == ac3[0]);
    assert(actions[4] == ac4[0]);
}

} // verus!
