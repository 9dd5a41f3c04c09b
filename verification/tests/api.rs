use match_monitor::FolderScan;
use match_monitor::MatchInfo;
use match_monitor::ParticipantRecord;
use match_monitor::QueueId;
use match_monitor::Role;
use match_monitor::build_match_details;
use match_monitor::choose_artifact;
use match_monitor::contains_str;
use match_monitor::is_mp4_name;
use match_monitor::latest_id_from_response;

fn participant(puuid: &str, champion: &str, position: &str, k: u32, d: u32, a: u32) -> ParticipantRecord {
    ParticipantRecord {
        puuid: puuid.to_string(),
        champion_name: champion.to_string(),
        team_position: position.to_string(),
        kills: k,
        deaths: d,
        assists: a,
    }
}

#[test]
fn role_names_parse() {
    assert_eq!(Role::from_str("TOP"), Ok(Role::TOP));
    assert_eq!(Role::from_str("JUNGLE"), Ok(Role::JUNGLE));
    assert_eq!(Role::from_str("MID"), Ok(Role::MID));
    assert_eq!(Role::from_str("BOTTOM"), Ok(Role::ADC));
    assert_eq!(Role::from_str("UTILITY"), Ok(Role::SUPPORT));
    assert_eq!(Role::from_str("TOPLANE"), Err("Role not found".to_string()));
    assert_eq!(Role::from_str(""), Err("Role not found".to_string()));
}

#[test]
fn queue_codes_classify() {
    assert_eq!(QueueId::from_str("420"), Ok(QueueId::SoloQ));
    assert_eq!(QueueId::from_str("440"), Ok(QueueId::Flex));
    assert_eq!(QueueId::from_str("999"), Ok(QueueId::NotInterested));
    assert_eq!(QueueId::from_code(420), QueueId::SoloQ);
    assert_eq!(QueueId::from_code(440), QueueId::Flex);
    assert_eq!(QueueId::from_code(0), QueueId::NotInterested);
}

#[test]
fn latest_id_is_the_first_element() {
    let ids = vec!["NEWEST".to_string(), "OLDER".to_string()];
    assert_eq!(latest_id_from_response(&ids), Ok("NEWEST".to_string()));
}

#[test]
fn empty_id_list_is_a_fetch_failure() {
    let ids: Vec<String> = Vec::new();
    assert_eq!(latest_id_from_response(&ids), Err("No match ID found".to_string()));
}

#[test]
fn membership_is_exact_string_equality() {
    let ids = vec!["AAA".to_string(), "BBB".to_string()];
    assert!(contains_str(&ids, "AAA"));
    assert!(contains_str(&ids, "BBB"));
    assert!(!contains_str(&ids, "AA"));
    assert!(!contains_str(&ids, "AAAA"));
}

#[test]
fn details_for_the_tracked_player() {
    let info = MatchInfo {
        queue_id: 420,
        participants: vec![
            participant("OTHER", "Ahri", "MID", 1, 2, 3),
            participant("ME", "Jinx", "BOTTOM", 7, 1, 9),
            participant("FRIEND", "Thresh", "UTILITY", 0, 4, 21),
        ],
    };
    let friends = vec!["FRIEND".to_string()];
    let d = build_match_details(&info, "ME", &friends).unwrap();
    assert_eq!(d.type_queue, QueueId::SoloQ);
    assert_eq!(d.champions_name, "Jinx".to_string());
    assert_eq!(d.role, Role::ADC);
    assert_eq!(d.kills, 7);
    assert_eq!(d.deaths, 1);
    assert_eq!(d.assists, 9);
    assert_eq!(d.friends, Some(vec!["FRIEND".to_string()]));
}

#[test]
fn details_without_co_participating_friends() {
    let info = MatchInfo {
        queue_id: 440,
        participants: vec![participant("ME", "Garen", "TOP", 3, 3, 3)],
    };
    let friends = vec!["ABSENT".to_string()];
    let d = build_match_details(&info, "ME", &friends).unwrap();
    assert_eq!(d.type_queue, QueueId::Flex);
    assert_eq!(d.role, Role::TOP);
    assert_eq!(d.friends, None);
}

#[test]
fn missing_participant_is_an_error() {
    let info = MatchInfo {
        queue_id: 420,
        participants: vec![participant("OTHER", "Ahri", "MID", 1, 2, 3)],
    };
    let friends: Vec<String> = Vec::new();
    assert_eq!(
        build_match_details(&info, "ME", &friends),
        Err("Participant with specified PUUID not found".to_string())
    );
}

#[test]
fn unknown_position_is_an_error() {
    let info = MatchInfo {
        queue_id: 420,
        participants: vec![participant("ME", "Ahri", "MIDLANE", 1, 2, 3)],
    };
    let friends: Vec<String> = Vec::new();
    assert_eq!(build_match_details(&info, "ME", &friends), Err("Role not found".to_string()));
}

#[test]
fn mp4_suffix_is_recognised() {
    assert!(is_mp4_name("game.mp4"));
    assert!(is_mp4_name(".mp4"));
    assert!(!is_mp4_name("mp4"));
    assert!(!is_mp4_name("game.mov"));
    assert!(!is_mp4_name("game.mp4.part"));
    assert!(!is_mp4_name(""));
}

#[test]
fn artifact_is_the_scanned_mp4() {
    let scan = FolderScan::Candidate {
        file_name: "clip.mp4".to_string(),
        file_path: "captures/today/clip.mp4".to_string(),
    };
    assert_eq!(choose_artifact(&scan), Ok("captures/today/clip.mp4".to_string()));
}

#[test]
fn non_mp4_candidate_is_rejected() {
    let scan = FolderScan::Candidate {
        file_name: "clip.txt".to_string(),
        file_path: "captures/today/clip.txt".to_string(),
    };
    assert_eq!(
        choose_artifact(&scan),
        Err("No file found in the provided directory".to_string())
    );
}

#[test]
fn missing_directory_is_an_error() {
    assert_eq!(
        choose_artifact(&FolderScan::NotADirectory),
        Err("Provided path is not a directory".to_string())
    );
}

#[test]
fn empty_folder_offers_no_artifact() {
    assert_eq!(
        choose_artifact(&FolderScan::NoCandidate),
        Err("No file found in the provided directory".to_string())
    );
}
