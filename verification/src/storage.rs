//! The shared dedup directory: the last known match id of every tracked
//! player.
//!
//! An absent key means "no match ever recorded for that player in this
//! process lifetime", which is distinct from "the latest match id is known
//! and stored".  The directory is created empty at startup, lives as long
//! as the process, and is never persisted.

use vstd::prelude::*;

verus! {

use vstd::hash_map::StringHashMap;

/// True iff the directory contents `m` hold exactly `match_id` for the
/// player `puuid`.  This is what "the match is already known" means.
pub open spec fn is_stored(m: Map<Seq<char>, Seq<char>>, puuid: Seq<char>, match_id: Seq<char>) -> bool {
    m.contains_key(puuid) && m[puuid] == match_id
}

/// Dedup idempotence: recording the same match id twice for a player
/// leaves the directory exactly as recording it once does, and a
/// just-recorded id is known for that player.
pub proof fn lemma_record_idempotent(
    m: Map<Seq<char>, Seq<char>>,
    puuid: Seq<char>,
    match_id: Seq<char>,
)
    ensures
        m.insert(puuid, match_id).insert(puuid, match_id) == m.insert(puuid, match_id),
        is_stored(m.insert(puuid, match_id), puuid, match_id),
{
    assert(m.insert(puuid, match_id).insert(puuid, match_id) =~= m.insert(puuid, match_id));
}

/// Maps a player id (puuid) to the last match id recorded for it.
///
/// The abstract value is a map from the player id's characters to the
/// stored match id's characters; an id absent from the map has never been
/// recorded.
pub struct MatchStorage {
    storage: StringHashMap<String>,
}

impl View for MatchStorage {
    type V = Map<Seq<char>, Seq<char>>;

    closed spec fn view(&self) -> Map<Seq<char>, Seq<char>> {
        self.storage@.map_values(|id: String| id@)
    }
}

impl MatchStorage {
    /// Creates an empty directory: nothing is recorded for any player.
    pub fn new() -> (s: Self)
        ensures
            s@ == Map::<Seq<char>, Seq<char>>::empty(),
    {
        let s = MatchStorage { storage: StringHashMap::new() };
        proof {
            assert(s@ =~= Map::<Seq<char>, Seq<char>>::empty());
        }
        s
    }

    /// Returns the stored match id for `puuid`, or `None` when nothing has
    /// been recorded for it yet.  Never fails.
    pub fn lookup(&self, puuid: &str) -> (r: Option<&String>)
        ensures
            match r {
                Some(id) => self@.contains_key(puuid@) && id@ == self@[puuid@],
                None => !self@.contains_key(puuid@),
            },
    {
        let r = self.storage.get(puuid);
        proof {
            if self.storage@.contains_key(puuid@) {
                assert(self@[puuid@] == self.storage@[puuid@]@);
            }
        }
        r
    }

    /// True iff a match id is stored for `puuid` and equals `match_id`
    /// exactly.  Returns `false` — not an error — when nothing is stored
    /// yet, which the caller must treat as "unknown, therefore new".
    pub fn is_match_id_known(&self, puuid: &str, match_id: &str) -> (r: bool)
        ensures
            r == (self@.contains_key(puuid@) && self@[puuid@] == match_id@),
    {
        match self.lookup(puuid) {
            Some(stored) => crate::strings::str_eq(stored.as_str(), match_id),
            None => false,
        }
    }

    /// Unconditional upsert of the match id stored for `puuid`.  Recording
    /// the same id twice is observably a no-op.
    pub fn store_match_id(&mut self, puuid: String, match_id: String)
        ensures
            final(self)@ == old(self)@.insert(puuid@, match_id@),
    {
        let ghost k = puuid@;
        let ghost v = match_id@;
        self.storage.insert(puuid, match_id);
        proof {
            assert(self@ =~= old(self)@.insert(k, v));
        }
    }
}

} // verus!
