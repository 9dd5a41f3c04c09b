//! The match-detail data model: what one completed match means for a
//! tracked player, as plain values.

use vstd::prelude::*;

verus! {

broadcast use vstd::string::to_string_from_display_ensures_for_str;

/// The position a player held in a match, as the remote API names it
/// ("BOTTOM" is the carry position, "UTILITY" the support position).
pub open spec fn spec_role_of(s: Seq<char>) -> Option<Role> {
    if s == "TOP"@ {
        Some(Role::TOP)
    } else if s == "JUNGLE"@ {
        Some(Role::JUNGLE)
    } else if s == "MID"@ {
        Some(Role::MID)
    } else if s == "BOTTOM"@ {
        Some(Role::ADC)
    } else if s == "UTILITY"@ {
        Some(Role::SUPPORT)
    } else {
        None
    }
}

/// The queue a match was played in, by the remote API's numeric queue
/// code: 420 is ranked solo, 440 is ranked flex, and every other code is
/// of no interest to this program.
pub open spec fn spec_queue_of_code(code: u64) -> QueueId {
    if code == 420 {
        QueueId::SoloQ
    } else if code == 440 {
        QueueId::Flex
    } else {
        QueueId::NotInterested
    }
}

/// The queue code as the decimal string the remote API also uses.
pub open spec fn spec_queue_of(s: Seq<char>) -> QueueId {
    if s == "420"@ {
        QueueId::SoloQ
    } else if s == "440"@ {
        QueueId::Flex
    } else {
        QueueId::NotInterested
    }
}

/// A player's position in a match.
#[derive(Clone, Copy, Debug, PartialEq, Eq, Structural)]
pub enum Role {
    TOP,
    JUNGLE,
    MID,
    ADC,
    SUPPORT,
}

impl Role {
    /// Parses the remote API's position name.  Exactly the five names
    /// "TOP", "JUNGLE", "MID", "BOTTOM" and "UTILITY" are positions;
    /// anything else is rejected.
    pub fn from_str(s: &str) -> (r: Result<Role, String>)
        ensures
            match r {
                Ok(role) => spec_role_of(s@) == Some(role),
                Err(e) => spec_role_of(s@) is None && e@ == "Role not found"@,
            },
    {
        if crate::strings::str_eq(s, "TOP") {
            Ok(Role::TOP)
        } else if crate::strings::str_eq(s, "JUNGLE") {
            Ok(Role::JUNGLE)
        } else if crate::strings::str_eq(s, "MID") {
            Ok(Role::MID)
        } else if crate::strings::str_eq(s, "BOTTOM") {
            Ok(Role::ADC)
        } else if crate::strings::str_eq(s, "UTILITY") {
            Ok(Role::SUPPORT)
        } else {
            Err("Role not found".to_string())
        }
    }
}

/// The queue classification of a match.
#[derive(Clone, Copy, Debug, PartialEq, Eq, Structural)]
pub enum QueueId {
    SoloQ,
    Flex,
    NotInterested,
}

impl QueueId {
    /// Parses the remote API's queue code written as a decimal string.
    /// Never fails: an unrecognised code is a queue of no interest.
    pub fn from_str(s: &str) -> (r: Result<QueueId, String>)
        ensures
            r == Ok::<QueueId, String>(spec_queue_of(s@)),
    {
        if crate::strings::str_eq(s, "420") {
            Ok(QueueId::SoloQ)
        } else if crate::strings::str_eq(s, "440") {
            Ok(QueueId::Flex)
        } else {
            Ok(QueueId::NotInterested)
        }
    }

    /// Classifies the remote API's numeric queue code directly.
    pub fn from_code(code: u64) -> (q: QueueId)
        ensures
            q == spec_queue_of_code(code),
    {
        if code == 420 {
            QueueId::SoloQ
        } else if code == 440 {
            QueueId::Flex
        } else {
            QueueId::NotInterested
        }
    }
}

/// What one completed match means for one tracked player: the queue it
/// was played in, the champion and position the player had, the player's
/// score line, and which other tracked players took part, if any.
#[derive(Debug, PartialEq)]
pub struct MatchDetails {
    pub type_queue: QueueId,
    pub champions_name: String,
    pub role: Role,
    pub kills: u32,
    pub deaths: u32,
    pub assists: u32,
    pub friends: Option<Vec<String>>,
}

} // verus!
