use match_monitor::CycleDecision;
use match_monitor::CycleReport;
use match_monitor::FetchOutcome;
use match_monitor::MatchStorage;
use match_monitor::PollWorker;
use match_monitor::ScriptedCycle;
use match_monitor::WorkerPhase;
use match_monitor::run_script;

fn cycle(shutdown: bool, fetch: FetchOutcome, detail_ok: bool, pipeline_ok: bool) -> ScriptedCycle {
    ScriptedCycle { shutdown, fetch, detail_ok, pipeline_ok }
}

fn latest(id: &str) -> FetchOutcome {
    FetchOutcome::Latest(id.to_string())
}

#[test]
fn bootstrap_records_but_never_triggers() {
    let mut storage = MatchStorage::new();
    let mut w = PollWorker::new("P1".to_string());
    let d = w.poll_cycle(false, &latest("ANY-ID"), &mut storage);
    assert_eq!(d, CycleDecision::Baseline("ANY-ID".to_string()));
    assert_eq!(w.phase, WorkerPhase::Steady);
    assert_eq!(storage.lookup("P1").unwrap().as_str(), "ANY-ID");
}

#[test]
fn fetch_failure_mutates_nothing_and_keeps_bootstrap() {
    let mut storage = MatchStorage::new();
    let mut w = PollWorker::new("P1".to_string());
    let d = w.poll_cycle(false, &FetchOutcome::Unavailable, &mut storage);
    assert_eq!(d, CycleDecision::ReportError);
    assert_eq!(w.phase, WorkerPhase::Bootstrapping);
    assert!(storage.lookup("P1").is_none());
    // the bootstrap cycle still happens once a fetch succeeds
    let d2 = w.poll_cycle(false, &latest("M1"), &mut storage);
    assert_eq!(d2, CycleDecision::Baseline("M1".to_string()));
}

#[test]
fn steady_known_id_does_nothing() {
    let mut storage = MatchStorage::new();
    let mut w = PollWorker::new("P1".to_string());
    w.poll_cycle(false, &latest("A"), &mut storage);
    let d = w.poll_cycle(false, &latest("A"), &mut storage);
    assert_eq!(d, CycleDecision::KnownMatch("A".to_string()));
    assert_eq!(storage.lookup("P1").unwrap().as_str(), "A");
}

#[test]
fn steady_novel_id_triggers_once_and_records_despite_pipeline_failure() {
    let mut storage = MatchStorage::new();
    let mut w = PollWorker::new("P1".to_string());
    w.poll_cycle(false, &latest("A"), &mut storage);
    let d = w.poll_cycle(false, &latest("B"), &mut storage);
    assert_eq!(d, CycleDecision::NovelMatch("B".to_string()));
    // the pipeline failed, yet the record advances
    let rep = w.conclude_novel(&mut storage, "B".to_string(), false);
    assert_eq!(
        rep,
        CycleReport::PipelineTriggered { match_id: "B".to_string(), pipeline_ok: false }
    );
    assert_eq!(storage.lookup("P1").unwrap().as_str(), "B");
    // the same id is known on the next cycle: no second trigger
    let d2 = w.poll_cycle(false, &latest("B"), &mut storage);
    assert_eq!(d2, CycleDecision::KnownMatch("B".to_string()));
}

#[test]
fn shutdown_halts_and_touches_nothing() {
    let mut storage = MatchStorage::new();
    storage.store_match_id("P1".to_string(), "A".to_string());
    let mut w = PollWorker::new("P1".to_string());
    let d = w.poll_cycle(true, &latest("B"), &mut storage);
    assert_eq!(d, CycleDecision::Halt);
    assert_eq!(w.phase, WorkerPhase::Stopped);
    assert_eq!(storage.lookup("P1").unwrap().as_str(), "A");
}

#[test]
fn script_stops_at_shutdown_and_ignores_the_rest() {
    let mut storage = MatchStorage::new();
    let mut w = PollWorker::new("P1".to_string());
    let script = vec![
        cycle(false, latest("A"), true, true),
        cycle(true, latest("B"), true, true),
        cycle(false, latest("C"), true, true),
    ];
    let log = run_script(&mut w, &mut storage, &script);
    let expected = vec![
        CycleReport::BaselineRecorded { match_id: "A".to_string() },
        CycleReport::Halted,
    ];
    assert_eq!(log, expected);
    assert_eq!(w.phase, WorkerPhase::Stopped);
    assert_eq!(storage.lookup("P1").unwrap().as_str(), "A");
}

#[test]
fn detail_fetch_failure_defers_the_record() {
    let mut storage = MatchStorage::new();
    let mut w = PollWorker::new("P1".to_string());
    let script = vec![
        cycle(false, latest("A"), true, true),
        cycle(false, latest("B"), false, true),
        cycle(false, latest("B"), true, true),
    ];
    let log = run_script(&mut w, &mut storage, &script);
    let expected = vec![
        CycleReport::BaselineRecorded { match_id: "A".to_string() },
        CycleReport::DetailFetchFailed { match_id: "B".to_string() },
        CycleReport::PipelineTriggered { match_id: "B".to_string(), pipeline_ok: true },
    ];
    assert_eq!(log, expected);
    assert_eq!(storage.lookup("P1").unwrap().as_str(), "B");
}

#[test]
fn repeated_novel_id_triggers_only_once() {
    let mut storage = MatchStorage::new();
    let mut w = PollWorker::new("P1".to_string());
    let script = vec![
        cycle(false, latest("A"), true, true),
        cycle(false, latest("B"), true, false),
        cycle(false, latest("B"), true, true),
        cycle(false, latest("B"), true, true),
    ];
    let log = run_script(&mut w, &mut storage, &script);
    let expected = vec![
        CycleReport::BaselineRecorded { match_id: "A".to_string() },
        CycleReport::PipelineTriggered { match_id: "B".to_string(), pipeline_ok: false },
        CycleReport::AlreadyKnown { match_id: "B".to_string() },
        CycleReport::AlreadyKnown { match_id: "B".to_string() },
    ];
    assert_eq!(log, expected);
    assert_eq!(storage.lookup("P1").unwrap().as_str(), "B");
}

#[test]
fn two_players_one_fixed_one_advancing() {
    // identities P1 and P2; the fetch returns M1 for P1 forever and
    // M1, M1, M2 in sequence for P2
    let mut storage = MatchStorage::new();
    let mut w1 = PollWorker::new("P1".to_string());
    let mut w2 = PollWorker::new("P2".to_string());
    let script1 = vec![
        cycle(false, latest("M1"), true, true),
        cycle(false, latest("M1"), true, true),
        cycle(false, latest("M1"), true, true),
    ];
    let script2 = vec![
        cycle(false, latest("M1"), true, true),
        cycle(false, latest("M1"), true, true),
        cycle(false, latest("M2"), true, true),
    ];
    let log1 = run_script(&mut w1, &mut storage, &script1);
    let log2 = run_script(&mut w2, &mut storage, &script2);
    // no pipeline call for P1, ever
    let triggers1 = log1
        .iter()
        .filter(|r| matches!(r, CycleReport::PipelineTriggered { .. }))
        .count();
    assert_eq!(triggers1, 0);
    // exactly one pipeline call for P2, after its third cycle, for M2
    let expected2 = vec![
        CycleReport::BaselineRecorded { match_id: "M1".to_string() },
        CycleReport::AlreadyKnown { match_id: "M1".to_string() },
        CycleReport::PipelineTriggered { match_id: "M2".to_string(), pipeline_ok: true },
    ];
    assert_eq!(log2, expected2);
    assert_eq!(storage.lookup("P1").unwrap().as_str(), "M1");
    assert_eq!(storage.lookup("P2").unwrap().as_str(), "M2");
}

#[test]
fn workers_are_independent_under_induced_failure() {
    // one player's fetch keeps failing; the other's cycles are unaffected
    let mut storage = MatchStorage::new();
    let mut w1 = PollWorker::new("P1".to_string());
    let mut w2 = PollWorker::new("P2".to_string());
    let d1a = w1.poll_cycle(false, &FetchOutcome::Unavailable, &mut storage);
    let d2a = w2.poll_cycle(false, &latest("A"), &mut storage);
    let d1b = w1.poll_cycle(false, &FetchOutcome::Unavailable, &mut storage);
    let d2b = w2.poll_cycle(false, &latest("B"), &mut storage);
    assert_eq!(d1a, CycleDecision::ReportError);
    assert_eq!(d1b, CycleDecision::ReportError);
    assert_eq!(d2a, CycleDecision::Baseline("A".to_string()));
    assert_eq!(d2b, CycleDecision::NovelMatch("B".to_string()));
    assert!(storage.lookup("P1").is_none());
    assert_eq!(storage.lookup("P2").unwrap().as_str(), "A");
}
