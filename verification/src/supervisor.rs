//! The supervisor's decisions: the liveness-gated startup plan and the
//! liveness monitor's per-tick step.
//!
//! The supervisor itself fans the workers out onto a task scheduler and
//! joins them at teardown; those are scheduling acts with no state of
//! their own.  What it decides — whether to start at all, which workers
//! to spawn, when to broadcast shutdown, and with which code to exit —
//! is all here.

use vstd::prelude::*;

verus! {

use crate::shutdown::ShutdownSignal;
use crate::worker::PollWorker;

/// Exit code after a clean shutdown: the companion process disappeared
/// after the program had been running.
pub const EXIT_CLEAN: i32 = 0;

/// Exit code when the liveness precondition was never satisfied: the
/// companion process was not running at startup, so no worker was ever
/// spawned.
pub const EXIT_LIVENESS_FAILED: i32 = 1;

/// What the supervisor does at startup: either exit right away with
/// `EXIT_LIVENESS_FAILED` and no workers, or launch exactly one
/// bootstrapping worker per tracked player.
pub struct StartupPlan {
    pub workers: Vec<PollWorker>,
    pub exit_now: Option<i32>,
}

/// The liveness gate.  With the companion process absent at startup,
/// zero workers are planned and the designated failure code is returned
/// immediately; with it present, one fresh worker per tracked player, in
/// the players' order, and no early exit.
pub fn plan_startup(companion_alive: bool, puuids: &Vec<String>) -> (plan: StartupPlan)
    ensures
        !companion_alive ==> ({
            &&& plan.workers@.len() == 0
            &&& plan.exit_now == Some(EXIT_LIVENESS_FAILED)
        }),
        companion_alive ==> ({
            &&& plan.exit_now is None
            &&& plan.workers@.len() == puuids@.len()
            &&& forall|i: int|
                0 <= i < puuids@.len() ==> (#[trigger] plan.workers@[i]).puuid == puuids@[i]
                    && plan.workers@[i].phase is Bootstrapping
        }),
{
    if !companion_alive {
        return StartupPlan { workers: Vec::new(), exit_now: Some(EXIT_LIVENESS_FAILED) };
    }
    let mut workers: Vec<PollWorker> = Vec::new();
    let mut i: usize = 0;
    while i < puuids.len()
        invariant
            i <= puuids@.len(),
            workers@.len() == i,
            forall|j: int|
                0 <= j < i ==> (#[trigger] workers@[j]).puuid == puuids@[j]
                    && workers@[j].phase is Bootstrapping,
        decreases puuids@.len() - i,
    {
        workers.push(PollWorker::new(puuids[i].clone()));
        i = i + 1;
    }
    StartupPlan { workers, exit_now: None }
}

/// One tick of the liveness monitor: the instant the companion process
/// is observed gone, the shutdown signal is set and the monitor stops
/// its own polling; while the process lives, nothing changes.
pub fn monitor_step(companion_alive: bool, signal: &mut ShutdownSignal) -> (stop: bool)
    ensures
        stop == !companion_alive,
        !companion_alive ==> final(signal).spec_is_set(),
        companion_alive ==> *final(signal) == *old(signal),
{
    if !companion_alive {
        signal.set();
        true
    } else {
        false
    }
}

} // verus!
