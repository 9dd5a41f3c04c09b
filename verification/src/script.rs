//! Whole runs of one worker, driven by a script of per-cycle outside
//! inputs.
//!
//! `run_script` executes the worker's loop exactly as the live program
//! does — check shutdown, judge the fetched id, follow up on a novel
//! match — but takes every outside result from a script instead of the
//! network, so the complete run is verified against `spec_run`, the
//! mathematical fold of `spec_step` over the script.

use vstd::prelude::*;

verus! {

use crate::storage::MatchStorage;
use crate::worker::CycleDecision;
use crate::worker::CycleInput;
use crate::worker::CycleReport;
use crate::worker::CycleSummary;
use crate::worker::FetchOutcome;
use crate::worker::PollWorker;
use crate::worker::WorkerPhase;
use crate::worker::spec_step;

/// The outside world's contribution to one poll cycle, as concrete
/// values: what the fetch returned, and how the detail fetch and the
/// pipeline would go if the cycle reaches them.
#[derive(Debug)]
pub struct ScriptedCycle {
    pub shutdown: bool,
    pub fetch: FetchOutcome,
    pub detail_ok: bool,
    pub pipeline_ok: bool,
}

impl View for ScriptedCycle {
    type V = CycleInput;

    open spec fn view(&self) -> CycleInput {
        CycleInput {
            shutdown: self.shutdown,
            fetch: self.fetch@,
            detail_ok: self.detail_ok,
            pipeline_ok: self.pipeline_ok,
        }
    }
}

/// The run of one worker over a whole script: folds `spec_step` over the
/// cycles in order, with `Stopped` absorbing — a stopped worker executes
/// no further cycle and emits no further log entry.
pub open spec fn spec_run(
    phase: WorkerPhase,
    stored: Map<Seq<char>, Seq<char>>,
    puuid: Seq<char>,
    script: Seq<CycleInput>,
) -> (WorkerPhase, Map<Seq<char>, Seq<char>>, Seq<CycleSummary>)
    decreases script.len(),
{
    if script.len() == 0 {
        (phase, stored, Seq::<CycleSummary>::empty())
    } else {
        let (p1, m1, log1) = spec_run(phase, stored, puuid, script.drop_last());
        if p1 is Stopped {
            (p1, m1, log1)
        } else {
            let (p2, m2, rep) = spec_step(p1, m1, puuid, script.last());
            (p2, m2, log1.push(rep))
        }
    }
}

/// A worker that starts stopped stays stopped: no script makes it act or
/// log again.
pub proof fn lemma_stopped_worker_stays_stopped(
    phase: WorkerPhase,
    stored: Map<Seq<char>, Seq<char>>,
    puuid: Seq<char>,
    script: Seq<CycleInput>,
)
    requires
        phase is Stopped,
    ensures
        spec_run(phase, stored, puuid, script) == (phase, stored, Seq::<CycleSummary>::empty()),
    decreases script.len(),
{
    if script.len() > 0 {
        lemma_stopped_worker_stays_stopped(phase, stored, puuid, script.drop_last());
    }
}

/// Shutdown convergence, the part a state machine can promise: once some
/// prefix of a run has stopped the worker, the remainder of the script
/// changes nothing and emits nothing — the run's outcome is the prefix's
/// outcome.
pub proof fn lemma_shutdown_convergence(
    phase: WorkerPhase,
    stored: Map<Seq<char>, Seq<char>>,
    puuid: Seq<char>,
    script: Seq<CycleInput>,
    i: int,
)
    requires
        0 <= i <= script.len(),
        spec_run(phase, stored, puuid, script.take(i)).0 is Stopped,
    ensures
        spec_run(phase, stored, puuid, script) == spec_run(phase, stored, puuid, script.take(i)),
    decreases script.len() - i,
{
    if i == script.len() {
        assert(script.take(i) =~= script);
    } else {
        assert(script.take(i + 1).drop_last() =~= script.take(i));
        assert(script.take(i + 1).last() == script[i]);
        lemma_shutdown_convergence(phase, stored, puuid, script, i + 1);
    }
}

/// How many cycles of a run triggered the pipeline.
pub open spec fn trigger_count(log: Seq<CycleSummary>) -> nat
    decreases log.len(),
{
    if log.len() == 0 {
        0
    } else {
        trigger_count(log.drop_last()) + (if log.last() is PipelineTriggered {
            1nat
        } else {
            0nat
        })
    }
}

/// Exactly-once processing: a steady worker that keeps fetching one and
/// the same id `b`, not stored for it when the run begins, triggers the
/// pipeline exactly once over the whole run — on the first cycle, which
/// also records `b` — and every later cycle finds `b` already known.
pub proof fn lemma_exactly_one_trigger_per_novel_id(
    stored: Map<Seq<char>, Seq<char>>,
    puuid: Seq<char>,
    b: Seq<char>,
    script: Seq<CycleInput>,
)
    requires
        script.len() > 0,
        !crate::storage::is_stored(stored, puuid, b),
        forall|j: int|
            0 <= j < script.len() ==> !(#[trigger] script[j]).shutdown && script[j].fetch == Some(
                b,
            ) && script[j].detail_ok,
    ensures
        ({
            let (p, m, log) = spec_run(WorkerPhase::Steady, stored, puuid, script);
            &&& p is Steady
            &&& m == stored.insert(puuid, b)
            &&& trigger_count(log) == 1
        }),
    decreases script.len(),
{
    let last = script.last();
    assert(last == script[script.len() - 1]);
    if script.len() == 1 {
        assert(script.drop_last() =~= Seq::<CycleInput>::empty());
        let r = spec_run(WorkerPhase::Steady, stored, puuid, script);
        let s = spec_step(WorkerPhase::Steady, stored, puuid, last);
        assert(s.2 is PipelineTriggered);
        assert(r.2 =~= Seq::<CycleSummary>::empty().push(s.2));
        assert(r.2.drop_last() =~= Seq::<CycleSummary>::empty());
        assert(trigger_count(Seq::<CycleSummary>::empty()) == 0);
        assert(r.2.last() == s.2);
        assert(trigger_count(r.2) == 1);
    } else {
        assert forall|j: int| 0 <= j < script.len() - 1 implies !(#[trigger] script.drop_last()[j]).shutdown
            && script.drop_last()[j].fetch == Some(b) && script.drop_last()[j].detail_ok by {
            assert(script.drop_last()[j] == script[j]);
        };
        lemma_exactly_one_trigger_per_novel_id(stored, puuid, b, script.drop_last());
        let r1 = spec_run(WorkerPhase::Steady, stored, puuid, script.drop_last());
        let s = spec_step(r1.0, r1.1, puuid, last);
        assert(crate::storage::is_stored(r1.1, puuid, b));
        assert(s.2 == CycleSummary::AlreadyKnown(b));
        let r = spec_run(WorkerPhase::Steady, stored, puuid, script);
        assert(r.2 =~= r1.2.push(s.2));
        assert(r.2.drop_last() =~= r1.2);
        assert(trigger_count(r.2) == trigger_count(r1.2));
    }
}

/// Runs `worker` over the whole `script`, updating `storage` and
/// returning the log of cycle reports, exactly as `spec_run` describes.
/// The loop leaves early once the worker stops; the absorption of
/// `Stopped` in `spec_run` makes that the same outcome as reading the
/// script to its end.
pub fn run_script(
    worker: &mut PollWorker,
    storage: &mut MatchStorage,
    script: &Vec<ScriptedCycle>,
) -> (log: Vec<CycleReport>)
    requires
        !(old(worker).phase is Stopped),
    ensures
        final(worker).puuid == old(worker).puuid,
        ({
            let r = spec_run(
                old(worker).phase,
                old(storage)@,
                old(worker).puuid@,
                script@.map_values(|c: ScriptedCycle| c@),
            );
            &&& final(worker).phase == r.0
            &&& final(storage)@ == r.1
            &&& log@.map_values(|rep: CycleReport| rep@) == r.2
        }),
{
    let ghost inputs = script@.map_values(|c: ScriptedCycle| c@);
    let mut log: Vec<CycleReport> = Vec::new();
    let mut i: usize = 0;
    let mut halted = false;
    while i < script.len() && !halted
        invariant
            i <= script@.len(),
            inputs == script@.map_values(|c: ScriptedCycle| c@),
            worker.puuid == old(worker).puuid,
            halted == (worker.phase is Stopped),
            ({
                let r = spec_run(old(worker).phase, old(storage)@, old(worker).puuid@, inputs.take(i as int));
                &&& worker.phase == r.0
                &&& storage@ == r.1
                &&& log@.map_values(|rep: CycleReport| rep@) == r.2
            }),
        decreases script@.len() - i,
    {
        let ghost prefix = inputs.take(i as int);
        let c = &script[i];
        let d = worker.poll_cycle(c.shutdown, &c.fetch, storage);
        match d {
            CycleDecision::Halt => {
                log.push(CycleReport::Halted);
                halted = true;
            },
            CycleDecision::ReportError => {
                log.push(CycleReport::FetchFailed);
            },
            CycleDecision::Baseline(match_id) => {
                log.push(CycleReport::BaselineRecorded { match_id });
            },
            CycleDecision::KnownMatch(match_id) => {
                log.push(CycleReport::AlreadyKnown { match_id });
            },
            CycleDecision::NovelMatch(match_id) => {
                if c.detail_ok {
                    let rep = worker.conclude_novel(storage, match_id, c.pipeline_ok);
                    log.push(rep);
                } else {
                    log.push(CycleReport::DetailFetchFailed { match_id });
                }
            },
        }
        proof {
            assert(inputs.take(i + 1 as int).drop_last() =~= prefix);
            assert(inputs.take(i + 1 as int).last() == inputs[i as int]);
            let r = spec_run(old(worker).phase, old(storage)@, old(worker).puuid@, inputs.take(i + 1 as int));
            assert(log@.map_values(|rep: CycleReport| rep@) =~= r.2);
        }
        i = i + 1;
    }
    proof {
        if halted {
            lemma_shutdown_convergence(
                old(worker).phase,
                old(storage)@,
                old(worker).puuid@,
                inputs,
                i as int,
            );
        } else {
            assert(inputs.take(i as int) =~= inputs);
        }
    }
    log
}

} // verus!
