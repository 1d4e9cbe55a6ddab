//! Orchestrator decisions: after racing the service body against the
//! termination signal, decide whether to force shutdown mode, whether to
//! run the re-exec protocol, and whether a drain await is owed.

use vstd::prelude::*;

verus! {

/// Which of the raced futures resolved first.
pub enum RaceOutcome {
    /// The service body finished on its own.
    ServiceFinished,
    /// The termination-signal future resolved first.
    TerminationSignal,
}

/// What the orchestrator does after the race.
#[derive(Clone, Copy, PartialEq, Eq, Structural, Debug)]
pub struct AfterRacePlan {
    /// Set the process-wide shutdown flag (it was not yet set).
    pub force_shutdown: bool,
    /// Notify `Reloading`, barrier-wait, then run the re-exec protocol.
    pub do_reload: bool,
    /// A still-running service body must be awaited to completion after
    /// the signal is handled.
    pub drain: bool,
}

/// Decide the orchestrator's path after the race between the service
/// body and the termination signal.
///
/// A service body that finishes first forces shutdown mode (idempotent)
/// and leaves nothing to drain; a termination signal leaves the body
/// running as the drain future. A reload is attempted exactly when the
/// termination state says one was requested.
pub fn plan_after_race(outcome: &RaceOutcome, shutdown_already_requested: bool,
    reload_requested: bool) -> (p: AfterRacePlan)
    ensures
        p.force_shutdown == (outcome is ServiceFinished && !shutdown_already_requested),
        p.drain == (outcome is TerminationSignal),
        p.do_reload == reload_requested,
{
    match outcome {
        RaceOutcome::ServiceFinished => AfterRacePlan {
            force_shutdown: !shutdown_already_requested,
            do_reload: reload_requested,
            drain: false,
        },
        RaceOutcome::TerminationSignal => AfterRacePlan {
            force_shutdown: false,
            do_reload: reload_requested,
            drain: true,
        },
    }
}

} // verus!
