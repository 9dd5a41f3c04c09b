//! The per-player poll worker: a small state machine deciding, once per
//! poll cycle, whether the latest fetched match id is new and what to do
//! about it.
//!
//! One worker exists per tracked player.  Its first successful cycle only
//! records a baseline (the latest id at cold start is almost certainly a
//! match processed in an earlier run); from then on it is in steady state,
//! where a fetched id that differs from the stored one is a novel match
//! and triggers the capture-and-publish pipeline exactly once.  The
//! remote calls themselves happen outside the worker; their results enter
//! as arguments, so every decision here is checked for every possible
//! outcome of those calls.

use vstd::prelude::*;

verus! {

use crate::storage::MatchStorage;
use crate::storage::is_stored;

/// Lifecycle of one worker: `Bootstrapping` only for its very first poll
/// cycle with a fetched id, `Steady` from then on.  `Stopped` is terminal
/// and is entered only by observing the shutdown signal.
#[derive(Clone, Copy, Debug, PartialEq)]
pub enum WorkerPhase {
    Bootstrapping,
    Steady,
    Stopped,
}

/// What the remote fetch of a player's latest match id produced.  A call
/// that errored and a response carrying no id at all are the same thing
/// to the worker: no usable answer this cycle.
#[derive(Debug, PartialEq)]
pub enum FetchOutcome {
    Unavailable,
    Latest(String),
}

impl View for FetchOutcome {
    type V = Option<Seq<char>>;

    open spec fn view(&self) -> Option<Seq<char>> {
        match *self {
            FetchOutcome::Unavailable => None,
            FetchOutcome::Latest(id) => Some(id@),
        }
    }
}

/// The worker's verdict for one poll cycle, carrying the fetched id where
/// there is one.  `NovelMatch` asks the caller to fetch the match details
/// and run the pipeline, then conclude the cycle with `conclude_novel`.
#[derive(Debug, PartialEq)]
pub enum CycleDecision {
    Halt,
    ReportError,
    Baseline(String),
    KnownMatch(String),
    NovelMatch(String),
}

/// One structured log entry per executed poll cycle.
#[derive(Debug, PartialEq)]
pub enum CycleReport {
    Halted,
    FetchFailed,
    BaselineRecorded { match_id: String },
    AlreadyKnown { match_id: String },
    DetailFetchFailed { match_id: String },
    PipelineTriggered { match_id: String, pipeline_ok: bool },
}

/// The abstract value of a `CycleReport`: the same case, over character
/// sequences.
pub enum CycleSummary {
    Halted,
    FetchFailed,
    BaselineRecorded(Seq<char>),
    AlreadyKnown(Seq<char>),
    DetailFetchFailed(Seq<char>),
    PipelineTriggered(Seq<char>, bool),
}

impl View for CycleReport {
    type V = CycleSummary;

    open spec fn view(&self) -> CycleSummary {
        match *self {
            CycleReport::Halted => CycleSummary::Halted,
            CycleReport::FetchFailed => CycleSummary::FetchFailed,
            CycleReport::BaselineRecorded { match_id } => CycleSummary::BaselineRecorded(
                match_id@,
            ),
            CycleReport::AlreadyKnown { match_id } => CycleSummary::AlreadyKnown(match_id@),
            CycleReport::DetailFetchFailed { match_id } => CycleSummary::DetailFetchFailed(
                match_id@,
            ),
            CycleReport::PipelineTriggered { match_id, pipeline_ok } => (
            CycleSummary::PipelineTriggered(match_id@, pipeline_ok)),
        }
    }
}

/// Everything the outside world contributes to one poll cycle, as one
/// abstract record: whether shutdown was observed at the top of the
/// cycle, what the fetch of the latest id produced, and — consulted only
/// when the cycle reaches the respective step — whether the detail fetch
/// succeeded and whether the pipeline run succeeded.
pub struct CycleInput {
    pub shutdown: bool,
    pub fetch: Option<Seq<char>>,
    pub detail_ok: bool,
    pub pipeline_ok: bool,
}

/// The complete per-cycle transition of one worker, as a mathematical
/// function: from the worker's phase, the dedup directory's contents and
/// the cycle's outside inputs to the next phase, the new contents and the
/// cycle's log entry.
pub open spec fn spec_step(
    phase: WorkerPhase,
    stored: Map<Seq<char>, Seq<char>>,
    puuid: Seq<char>,
    c: CycleInput,
) -> (WorkerPhase, Map<Seq<char>, Seq<char>>, CycleSummary) {
    if c.shutdown {
        (WorkerPhase::Stopped, stored, CycleSummary::Halted)
    } else {
        match c.fetch {
            None => (phase, stored, CycleSummary::FetchFailed),
            Some(id) => {
                if phase is Bootstrapping {
                    (WorkerPhase::Steady, stored.insert(puuid, id), CycleSummary::BaselineRecorded(
                        id,
                    ))
                } else {
                    if is_stored(stored, puuid, id) {
                        (WorkerPhase::Steady, stored, CycleSummary::AlreadyKnown(id))
                    } else if !c.detail_ok {
                        (WorkerPhase::Steady, stored, CycleSummary::DetailFetchFailed(id))
                    } else {
                        (
                            WorkerPhase::Steady,
                            stored.insert(puuid, id),
                            CycleSummary::PipelineTriggered(id, c.pipeline_ok),
                        )
                    }
                }
            },
        }
    }
}

/// One poll worker, owning the player id it watches and its phase.
#[derive(Debug)]
pub struct PollWorker {
    pub puuid: String,
    pub phase: WorkerPhase,
}

impl PollWorker {
    /// A fresh worker for `puuid`, about to run its bootstrap cycle.
    pub fn new(puuid: String) -> (w: PollWorker)
        ensures
            w.puuid == puuid,
            w.phase is Bootstrapping,
    {
        PollWorker { puuid, phase: WorkerPhase::Bootstrapping }
    }

    /// The first half of one poll cycle: observe the shutdown flag, then
    /// judge the fetched latest id against the dedup directory.
    ///
    /// With shutdown set, the worker stops and nothing is touched.  A
    /// failed fetch mutates nothing — it must never be mistaken for "no
    /// new match" — and leaves the phase as it was, so a worker whose
    /// very first fetch fails still gets its bootstrap cycle later.  The
    /// first fetched id only records the baseline and never triggers the
    /// pipeline.  In steady state, a stored id equal to the fetched one
    /// means nothing to do; any other fetched id is a novel match, which
    /// the caller must follow up on and conclude with `conclude_novel`.
    pub fn poll_cycle(
        &mut self,
        shutdown: bool,
        fetch: &FetchOutcome,
        storage: &mut MatchStorage,
    ) -> (d: CycleDecision)
        requires
            !(old(self).phase is Stopped),
        ensures
            final(self).puuid == old(self).puuid,
            d is Halt <==> shutdown,
            shutdown ==> ({
                &&& final(self).phase is Stopped
                &&& final(storage)@ == old(storage)@
            }),
            !shutdown && fetch is Unavailable ==> ({
                &&& d is ReportError
                &&& final(self).phase == old(self).phase
                &&& final(storage)@ == old(storage)@
            }),
            !shutdown && old(self).phase is Bootstrapping ==> (match *fetch {
                FetchOutcome::Latest(id) => {
                    &&& d matches CycleDecision::Baseline(b) && b@ == id@
                    &&& final(self).phase is Steady
                    &&& final(storage)@ == old(storage)@.insert(old(self).puuid@, id@)
                },
                FetchOutcome::Unavailable => true,
            }),
            !shutdown && old(self).phase is Steady ==> (match *fetch {
                FetchOutcome::Latest(id) => {
                    &&& final(self).phase is Steady
                    &&& final(storage)@ == old(storage)@
                    &&& if is_stored(old(storage)@, old(self).puuid@, id@) {
                        d matches CycleDecision::KnownMatch(k) && k@ == id@
                    } else {
                        d matches CycleDecision::NovelMatch(n) && n@ == id@
                    }
                },
                FetchOutcome::Unavailable => true,
            }),
    {
        if shutdown {
            self.phase = WorkerPhase::Stopped;
            return CycleDecision::Halt;
        }
        match fetch {
            FetchOutcome::Unavailable => CycleDecision::ReportError,
            FetchOutcome::Latest(id) => {
                match self.phase {
                    WorkerPhase::Bootstrapping => {
                        storage.store_match_id(self.puuid.clone(), id.clone());
                        self.phase = WorkerPhase::Steady;
                        CycleDecision::Baseline(id.clone())
                    },
                    WorkerPhase::Steady => {
                        if storage.is_match_id_known(self.puuid.as_str(), id.as_str()) {
                            CycleDecision::KnownMatch(id.clone())
                        } else {
                            CycleDecision::NovelMatch(id.clone())
                        }
                    },
                    WorkerPhase::Stopped => {
                        proof {
                            assert(false);
                        }
                        CycleDecision::Halt
                    },
                }
            },
        }
    }

    /// The second half of a novel-match cycle, called once the match
    /// details were fetched and the pipeline was attempted: records the
    /// novel id in the dedup directory.
    ///
    /// The pipeline's outcome is taken as an argument precisely so the
    /// contract can say that the record does not depend on it: the dedup
    /// record advances on detection of novelty, not on pipeline success,
    /// so a permanently failing artifact is never reprocessed forever.
    pub fn conclude_novel(
        &self,
        storage: &mut MatchStorage,
        match_id: String,
        pipeline_ok: bool,
    ) -> (r: CycleReport)
        requires
            self.phase is Steady,
        ensures
            final(storage)@ == old(storage)@.insert(self.puuid@, match_id@),
            (r matches CycleReport::PipelineTriggered { match_id: m, pipeline_ok: p } && m@
                == match_id@ && p == pipeline_ok),
    {
        let reported = match_id.clone();
        storage.store_match_id(self.puuid.clone(), match_id);
        CycleReport::PipelineTriggered { match_id: reported, pipeline_ok }
    }
}

/// Bootstrap suppression: whatever id the very first fetch of a worker
/// returns, the cycle records exactly that id as the baseline, moves the
/// worker to steady state, and never triggers the pipeline.
pub proof fn lemma_bootstrap_suppression(
    stored: Map<Seq<char>, Seq<char>>,
    puuid: Seq<char>,
    id: Seq<char>,
    detail_ok: bool,
    pipeline_ok: bool,
)
    ensures
        ({
            let c = CycleInput { shutdown: false, fetch: Some(id), detail_ok, pipeline_ok };
            let (p, m, rep) = spec_step(WorkerPhase::Bootstrapping, stored, puuid, c);
            &&& p is Steady
            &&& m == stored.insert(puuid, id)
            &&& rep == CycleSummary::BaselineRecorded(id)
        }),
{
}

/// Novelty detection: in steady state with stored id `a`, a fetch
/// returning `a` changes nothing and triggers nothing; a fetch returning
/// `b != a` whose detail fetch succeeds triggers the pipeline exactly
/// once and records `b` — even if the pipeline run fails — after which
/// `b` is the stored id, so the next cycle fetching `b` is already known.
pub proof fn lemma_novelty_detection(
    stored: Map<Seq<char>, Seq<char>>,
    puuid: Seq<char>,
    a: Seq<char>,
    b: Seq<char>,
    detail_ok: bool,
    pipeline_ok: bool,
)
    requires
        is_stored(stored, puuid, a),
    ensures
        ({
            let c = CycleInput { shutdown: false, fetch: Some(a), detail_ok, pipeline_ok };
            let (p, m, rep) = spec_step(WorkerPhase::Steady, stored, puuid, c);
            &&& p is Steady
            &&& m == stored
            &&& rep == CycleSummary::AlreadyKnown(a)
        }),
        b != a ==> ({
            let c = CycleInput { shutdown: false, fetch: Some(b), detail_ok: true, pipeline_ok };
            let (p, m, rep) = spec_step(WorkerPhase::Steady, stored, puuid, c);
            &&& p is Steady
            &&& m == stored.insert(puuid, b)
            &&& rep == CycleSummary::PipelineTriggered(b, pipeline_ok)
            &&& is_stored(m, puuid, b)
        }),
{
}

/// Worker independence: a cycle of the worker for `puuid` never touches
/// the entry of any other player, whatever the cycle's inputs and
/// outcome.
pub proof fn lemma_worker_independence(
    phase: WorkerPhase,
    stored: Map<Seq<char>, Seq<char>>,
    puuid: Seq<char>,
    other: Seq<char>,
    c: CycleInput,
)
    requires
        other != puuid,
    ensures
        ({
            let (p, m, rep) = spec_step(phase, stored, puuid, c);
            &&& m.contains_key(other) == stored.contains_key(other)
            &&& stored.contains_key(other) ==> m[other] == stored[other]
        }),
{
}

/// Interleavability: one cycle each of two different players' workers
/// can run in either order over the shared directory — both orders give
/// the same final directory, the same phases and the same log entries,
/// so the two workers' event logs interleave freely.
pub proof fn lemma_cycles_commute(
    phase1: WorkerPhase,
    phase2: WorkerPhase,
    stored: Map<Seq<char>, Seq<char>>,
    puuid1: Seq<char>,
    puuid2: Seq<char>,
    c1: CycleInput,
    c2: CycleInput,
)
    requires
        puuid1 != puuid2,
    ensures
        ({
            let r1 = spec_step(phase1, stored, puuid1, c1);
            let r2 = spec_step(phase2, r1.1, puuid2, c2);
            let q2 = spec_step(phase2, stored, puuid2, c2);
            let q1 = spec_step(phase1, q2.1, puuid1, c1);
            &&& r2.1 == q1.1
            &&& r1.0 == q1.0
            &&& r2.0 == q2.0
            &&& r1.2 == q1.2
            &&& r2.2 == q2.2
        }),
{
    let r1 = spec_step(phase1, stored, puuid1, c1);
    let r2 = spec_step(phase2, r1.1, puuid2, c2);
    let q2 = spec_step(phase2, stored, puuid2, c2);
    let q1 = spec_step(phase1, q2.1, puuid1, c1);
    assert(is_stored(r1.1, puuid2, match c2.fetch {
        Some(id) => id,
        None => Seq::<char>::empty(),
    }) == is_stored(stored, puuid2, match c2.fetch {
        Some(id) => id,
        None => Seq::<char>::empty(),
    }));
    assert(is_stored(q2.1, puuid1, match c1.fetch {
        Some(id) => id,
        None => Seq::<char>::empty(),
    }) == is_stored(stored, puuid1, match c1.fetch {
        Some(id) => id,
        None => Seq::<char>::empty(),
    }));
    assert(r2.1 =~= q1.1);
}

/// Halting: a cycle that observes the shutdown signal stops the worker
/// and leaves the dedup directory untouched, from any phase and whatever
/// the rest of the cycle's inputs would have been.
pub proof fn lemma_halt_on_shutdown(
    phase: WorkerPhase,
    stored: Map<Seq<char>, Seq<char>>,
    puuid: Seq<char>,
    c: CycleInput,
)
    requires
        c.shutdown,
    ensures
        spec_step(phase, stored, puuid, c) == (WorkerPhase::Stopped, stored, CycleSummary::Halted),
{
}

} // verus!
