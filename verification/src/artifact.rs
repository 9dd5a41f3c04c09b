//! Picking the recording to publish out of the capture folder.
//!
//! The capture software drops each recording as a file inside a
//! subfolder of a fixed folder.  The transport walks the folder and
//! reports what it saw as plain values; whether that candidate is the
//! artifact to publish — a file whose name ends in ".mp4" — is decided
//! here.

use vstd::prelude::*;

verus! {

broadcast use vstd::string::to_string_from_display_ensures_for_str;

use vstd::string::StrSliceExecFns;

use crate::strings::str_eq;

/// What a walk of the capture folder saw: the folder may not be a
/// directory at all, it may hold no subfolder with a file, or there is a
/// candidate — the first file of the first subfolder, with its name and
/// its full path.
#[derive(Debug, PartialEq)]
pub enum FolderScan {
    NotADirectory,
    NoCandidate,
    Candidate { file_name: String, file_path: String },
}

/// True iff the file name ends in ".mp4".
pub open spec fn spec_is_mp4(name: Seq<char>) -> bool {
    name.len() >= 4 && name.subrange(name.len() - 4, name.len() as int) == ".mp4"@
}

/// Whether `name` names an mp4 recording.
pub fn is_mp4_name(name: &str) -> (r: bool)
    ensures
        r == spec_is_mp4(name@),
{
    let n = name.unicode_len();
    if n < 4 {
        return false;
    }
    let tail = name.substring_char(n - 4, n);
    str_eq(tail, ".mp4")
}

/// Decides which file, if any, the scanned capture folder offers for
/// publishing.  A missing directory and a candidate that is not an mp4
/// recording fail with the same messages the folder walk reports.
pub fn choose_artifact(scan: &FolderScan) -> (r: Result<String, String>)
    ensures
        match *scan {
            FolderScan::NotADirectory => (r matches Err(e) && e@
                == "Provided path is not a directory"@),
            FolderScan::NoCandidate => (r matches Err(e) && e@
                == "No file found in the provided directory"@),
            FolderScan::Candidate { file_name, file_path } => (if spec_is_mp4(file_name@) {
                r matches Ok(p) && p@ == file_path@
            } else {
                r matches Err(e) && e@ == "No file found in the provided directory"@
            }),
        },
{
    match scan {
        FolderScan::NotADirectory => Err("Provided path is not a directory".to_string()),
        FolderScan::NoCandidate => Err("No file found in the provided directory".to_string()),
        FolderScan::Candidate { file_name, file_path } => {
            if is_mp4_name(file_name.as_str()) {
                Ok(file_path.clone())
            } else {
                Err("No file found in the provided directory".to_string())
            }
        },
    }
}

} // verus!
