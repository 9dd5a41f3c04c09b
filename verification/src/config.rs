//! The configuration the program runs with, supplied at startup and
//! immutable for the process lifetime.

use vstd::prelude::*;

verus! {

/// Everything the program is configured with: the capture folder, the
/// match API key, the tracked players, and the friends to flag as
/// co-participants.  Loaded once from the environment at startup; the
/// loading itself is plain I/O and happens outside the library.
#[derive(Debug)]
pub struct Secrets {
    pub folder_path: String,
    pub riot_api_key: String,
    pub summoner_puuids: Vec<String>,
    pub friend_puuids: Vec<String>,
}

} // verus!
