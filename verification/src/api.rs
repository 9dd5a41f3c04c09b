//! What the remote match API's answers mean, on plain values.
//!
//! The HTTP transport hands over a list of match ids and, for one match,
//! a record of its queue code and participants.  Everything the program
//! reads out of those answers — which id is the latest, which
//! participant is the tracked player, what the match meant for them,
//! which other tracked players took part — is decided here.

use vstd::prelude::*;

verus! {

broadcast use vstd::string::to_string_from_display_ensures_for_str;

use crate::strings::str_eq;
use crate::types::MatchDetails;
use crate::types::QueueId;
use crate::types::Role;
use crate::types::spec_queue_of_code;
use crate::types::spec_role_of;

/// One participant of a match, as the remote API reports it: who they
/// are, what they played, and their score line.
#[derive(Debug, PartialEq)]
pub struct ParticipantRecord {
    pub puuid: String,
    pub champion_name: String,
    pub team_position: String,
    pub kills: u32,
    pub deaths: u32,
    pub assists: u32,
}

/// The part of one match's remote record that the program reads: the
/// numeric queue code and the participants.
#[derive(Debug, PartialEq)]
pub struct MatchInfo {
    pub queue_id: u64,
    pub participants: Vec<ParticipantRecord>,
}

/// True iff `q` occurs among `ids`.
pub open spec fn contains_id(ids: Seq<String>, q: Seq<char>) -> bool {
    exists|i: int| 0 <= i < ids.len() && (#[trigger] ids[i])@ == q
}

/// True iff some participant is the player `puuid`.
pub open spec fn has_participant(parts: Seq<ParticipantRecord>, puuid: Seq<char>) -> bool {
    exists|i: int| 0 <= i < parts.len() && (#[trigger] parts[i]).puuid@ == puuid
}

/// True iff `i` is the first participant index holding the player
/// `puuid`.
pub open spec fn is_target_ix(parts: Seq<ParticipantRecord>, puuid: Seq<char>, i: int) -> bool {
    &&& 0 <= i < parts.len()
    &&& parts[i].puuid@ == puuid
    &&& forall|j: int| 0 <= j < i ==> (#[trigger] parts[j]).puuid@ != puuid
}

/// The puuids of the participants that are tracked friends, in
/// participant order, duplicates and the player themself included when
/// they occur among `friends`.
pub open spec fn friend_ids(parts: Seq<ParticipantRecord>, friends: Seq<String>) -> Seq<
    Seq<char>,
> {
    parts.map_values(|p: ParticipantRecord| p.puuid@).filter(
        |q: Seq<char>| contains_id(friends, q),
    )
}

/// Picks the latest match id out of the id-list answer of the remote
/// API: its first element.  An empty answer is a fetch failure, never
/// "no new match".
pub fn latest_id_from_response(ids: &Vec<String>) -> (r: Result<String, String>)
    ensures
        ids@.len() == 0 ==> (r matches Err(e) && e@ == "No match ID found"@),
        ids@.len() > 0 ==> (r matches Ok(id) && id@ == ids@[0]@),
{
    if ids.len() == 0 {
        Err("No match ID found".to_string())
    } else {
        Ok(ids[0].clone())
    }
}

/// True iff `q` occurs among `ids`, by exact string equality.
pub fn contains_str(ids: &Vec<String>, q: &str) -> (r: bool)
    ensures
        r == contains_id(ids@, q@),
{
    let mut i: usize = 0;
    while i < ids.len()
        invariant
            i <= ids@.len(),
            forall|j: int| 0 <= j < i ==> (#[trigger] ids@[j])@ != q@,
        decreases ids@.len() - i,
    {
        if str_eq(ids[i].as_str(), q) {
            proof {
                assert(0 <= i < ids@.len() && ids@[i as int]@ == q@);
            }
            return true;
        }
        i = i + 1;
    }
    false
}

/// Reads one match's record from the tracked player's point of view.
///
/// The first participant whose puuid equals `summoner_puuid` is the
/// player; their champion, position and score line, the match's queue
/// classification, and the co-participating tracked friends make up the
/// details.  Fails exactly when no participant is the player, or when
/// the player's position is not one the API defines.
pub fn build_match_details(
    info: &MatchInfo,
    summoner_puuid: &str,
    friends_puuids: &Vec<String>,
) -> (r: Result<MatchDetails, String>)
    ensures
        match r {
            Ok(d) => ({
                &&& has_participant(info.participants@, summoner_puuid@)
                &&& exists|i: int|
                    #[trigger] is_target_ix(info.participants@, summoner_puuid@, i) && ({
                        let p = info.participants@[i];
                        &&& spec_role_of(p.team_position@) == Some(d.role)
                        &&& d.champions_name@ == p.champion_name@
                        &&& d.kills == p.kills
                        &&& d.deaths == p.deaths
                        &&& d.assists == p.assists
                    })
                &&& d.type_queue == spec_queue_of_code(info.queue_id)
                &&& (d.friends is None <==> friend_ids(info.participants@, friends_puuids@).len()
                    == 0)
                &&& (d.friends matches Some(v) ==> v@.map_values(|s: String| s@) == friend_ids(
                    info.participants@,
                    friends_puuids@,
                ))
            }),
            Err(e) => ({
                ||| (!has_participant(info.participants@, summoner_puuid@) && e@
                    == "Participant with specified PUUID not found"@)
                ||| (exists|i: int|
                    #[trigger] is_target_ix(info.participants@, summoner_puuid@, i)
                        && spec_role_of(info.participants@[i].team_position@) is None) && e@
                    == "Role not found"@
            }),
        },
{
    let n = info.participants.len();
    let mut i: usize = 0;
    let mut found: bool = false;
    while i < n && !found
        invariant
            n == info.participants@.len(),
            i <= n,
            forall|j: int|
                0 <= j < i ==> (#[trigger] info.participants@[j]).puuid@ != summoner_puuid@,
            found ==> i < n && info.participants@[i as int].puuid@ == summoner_puuid@,
        decreases n - i + (if found {
            0int
        } else {
            1int
        }),
    {
        if str_eq(info.participants[i].puuid.as_str(), summoner_puuid) {
            found = true;
        } else {
            i = i + 1;
        }
    }
    if !found {
        return Err("Participant with specified PUUID not found".to_string());
    }
    proof {
        assert(is_target_ix(info.participants@, summoner_puuid@, i as int));
    }
    let part = &info.participants[i];
    let role = match Role::from_str(part.team_position.as_str()) {
        Ok(role) => role,
        Err(e) => {
            return Err(e);
        },
    };
    let queue = QueueId::from_code(info.queue_id);

    let mut friends_list: Vec<String> = Vec::new();
    let mut k: usize = 0;
    while k < n
        invariant
            n == info.participants@.len(),
            k <= n,
            friends_list@.map_values(|s: String| s@) == friend_ids(
                info.participants@.take(k as int),
                friends_puuids@,
            ),
        decreases n - k,
    {
        let p = &info.participants[k];
        let ghost pre = friends_list@;
        if contains_str(friends_puuids, p.puuid.as_str()) {
            friends_list.push(p.puuid.clone());
        }
        proof {
            reveal(Seq::filter);
            let parts = info.participants@;
            let prefix = parts.take(k as int);
            let next = parts.take(k + 1 as int);
            let fp = |p: ParticipantRecord| p.puuid@;
            let pred = |q: Seq<char>| contains_id(friends_puuids@, q);
            let x = parts[k as int].puuid@;
            assert(next.drop_last() =~= prefix);
            assert(next.map_values(fp) =~= prefix.map_values(fp).push(x));
            assert(prefix.map_values(fp).push(x).drop_last() =~= prefix.map_values(fp));
            assert(friend_ids(next, friends_puuids@) == (if pred(x) {
                friend_ids(prefix, friends_puuids@).push(x)
            } else {
                friend_ids(prefix, friends_puuids@)
            }));
            assert(friends_list@.map_values(|s: String| s@) =~= friend_ids(
                next,
                friends_puuids@,
            ));
        }
        k = k + 1;
    }
    proof {
        assert(info.participants@.take(n as int) =~= info.participants@);
    }
    let friends: Option<Vec<String>> = if friends_list.len() == 0 {
        None
    } else {
        Some(friends_list)
    };

    Ok(
        MatchDetails {
            type_queue: queue,
            champions_name: part.champion_name.clone(),
            role,
            kills: part.kills,
            deaths: part.deaths,
            assists: part.assists,
            friends,
        },
    )
}

} // verus!
