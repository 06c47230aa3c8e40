use vstd::prelude::*;

verus! {

/// The phases of one transfer invocation, in the order a successful run
/// passes through them. `Done` carries the process exit status.
#[derive(Debug, Clone, Copy, PartialEq, Eq, Structural)]
pub enum Phase {
    Idle,
    SecretResolved,
    WorkerRunning,
    Draining,
    Done { exit_code: i32 },
}

/// The events that move an invocation between phases.
///
/// Resolution events come from the secret handshake, before any worker
/// exists. `WorkerSpawned` marks the channel opened and the single
/// worker started. `DrainStarted` marks the consuming loop entered.
/// `FailureLogged` is a terminal failure observed in log mode, and
/// `StreamEnded` is end-of-stream on the channel.
#[derive(Debug, Clone, Copy, PartialEq, Eq, Structural)]
pub enum OrchestratorEvent {
    ResolutionFailed,
    ResolutionSucceeded,
    WorkerSpawned,
    DrainStarted,
    FailureLogged,
    StreamEnded,
}

/// The transition relation of the orchestrator.
///
/// A handshake failure moves straight to `Done` with a non-zero status,
/// so no worker is ever spawned after it. In log mode an observed
/// failure ends the run with status one at once. End-of-stream ends the
/// run with status zero: in bar mode the final exit does not depend on
/// whether a failure was rendered, which preserves the asymmetry between
/// the two rendering modes. `Done` absorbs every further event, and an
/// event that does not belong to the current phase changes nothing.
pub open spec fn phase_step(p: Phase, e: OrchestratorEvent) -> Phase {
    match p {
        Phase::Idle => match e {
            OrchestratorEvent::ResolutionFailed => Phase::Done { exit_code: 1 },
            OrchestratorEvent::ResolutionSucceeded => Phase::SecretResolved,
            _ => p,
        },
        Phase::SecretResolved => match e {
            OrchestratorEvent::WorkerSpawned => Phase::WorkerRunning,
            _ => p,
        },
        Phase::WorkerRunning => match e {
            OrchestratorEvent::DrainStarted => Phase::Draining,
            _ => p,
        },
        Phase::Draining => match e {
            OrchestratorEvent::FailureLogged => Phase::Done { exit_code: 1 },
            OrchestratorEvent::StreamEnded => Phase::Done { exit_code: 0 },
            _ => p,
        },
        Phase::Done { exit_code } => p,
    }
}

/// Advances the orchestrator by one event, exactly as the transition
/// relation specifies.
pub fn orchestrate_step(p: Phase, e: OrchestratorEvent) -> (n: Phase)
    ensures
        n == phase_step(p, e),
{
    match p {
        Phase::Idle => match e {
            OrchestratorEvent::ResolutionFailed => Phase::Done { exit_code: 1 },
            OrchestratorEvent::ResolutionSucceeded => Phase::SecretResolved,
            _ => p,
        },
        Phase::SecretResolved => match e {
            OrchestratorEvent::WorkerSpawned => Phase::WorkerRunning,
            _ => p,
        },
        Phase::WorkerRunning => match e {
            OrchestratorEvent::DrainStarted => Phase::Draining,
            _ => p,
        },
        Phase::Draining => match e {
            OrchestratorEvent::FailureLogged => Phase::Done { exit_code: 1 },
            OrchestratorEvent::StreamEnded => Phase::Done { exit_code: 0 },
            _ => p,
        },
        Phase::Done { .. } => p,
    }
}

/// Folds a whole event sequence through the transition relation.
pub open spec fn run_events(p: Phase, es: Seq<OrchestratorEvent>) -> Phase
    decreases es.len(),
{
    if es.len() == 0 {
        p
    } else {
        run_events(phase_step(p, es[0]), es.drop_first())
    }
}

/// Law: `Done` is terminal. Once a run has an exit status, no sequence
/// of further events can change it or revive the run.
pub proof fn lemma_done_terminal(exit_code: i32, es: Seq<OrchestratorEvent>)
    ensures
        run_events(Phase::Done { exit_code }, es) == (Phase::Done { exit_code }),
    decreases es.len(),
{
    if es.len() > 0 {
        lemma_done_terminal(exit_code, es.drop_first());
    }
}

/// Law: a handshake failure aborts the whole run. Whatever happens
/// afterwards, a run whose secret resolution failed ends with a non-zero
/// status and never reaches `WorkerRunning`: the worker is never
/// spawned.
pub proof fn lemma_resolution_failure_skips_worker(es: Seq<OrchestratorEvent>)
    ensures
        run_events(Phase::Idle, seq![OrchestratorEvent::ResolutionFailed] + es) == (Phase::Done {
            exit_code: 1,
        }),
{
    let whole = seq![OrchestratorEvent::ResolutionFailed] + es;
    assert(whole.drop_first() =~= es);
    assert(phase_step(Phase::Idle, whole[0]) == Phase::Done { exit_code: 1 });
    lemma_done_terminal(1, es);
}

} // verus!
