use match_monitor::MatchStorage;

#[test]
fn empty_directory_knows_nothing() {
    let s = MatchStorage::new();
    assert!(s.lookup("P1").is_none());
    assert!(!s.is_match_id_known("P1", "M1"));
}

#[test]
fn record_then_lookup() {
    let mut s = MatchStorage::new();
    s.store_match_id("P1".to_string(), "M1".to_string());
    assert_eq!(s.lookup("P1").unwrap().as_str(), "M1");
    assert!(s.is_match_id_known("P1", "M1"));
    assert!(!s.is_match_id_known("P1", "M2"));
    assert!(!s.is_match_id_known("P2", "M1"));
}

#[test]
fn record_is_idempotent() {
    let mut s = MatchStorage::new();
    s.store_match_id("P1".to_string(), "M1".to_string());
    let before = s.lookup("P1").unwrap().clone();
    s.store_match_id("P1".to_string(), "M1".to_string());
    assert_eq!(s.lookup("P1").unwrap(), &before);
    assert!(s.is_match_id_known("P1", "M1"));
}

#[test]
fn record_overwrites_previous_id() {
    let mut s = MatchStorage::new();
    s.store_match_id("P1".to_string(), "M1".to_string());
    s.store_match_id("P1".to_string(), "M2".to_string());
    assert_eq!(s.lookup("P1").unwrap().as_str(), "M2");
    assert!(!s.is_match_id_known("P1", "M1"));
    assert!(s.is_match_id_known("P1", "M2"));
}

#[test]
fn entries_are_per_player() {
    let mut s = MatchStorage::new();
    s.store_match_id("P1".to_string(), "M1".to_string());
    s.store_match_id("P2".to_string(), "M2".to_string());
    assert_eq!(s.lookup("P1").unwrap().as_str(), "M1");
    assert_eq!(s.lookup("P2").unwrap().as_str(), "M2");
}
