use vstd::prelude::*;

use crate::file::DownloadFile;

verus! {

/// Whether a supplied password grants access: only an exactly matching
/// one does, and a missing one never does.
pub open spec fn spec_password_ok(supplied: Option<Seq<char>>, expected: Seq<char>) -> bool {
    match supplied {
        Some(p) => p == expected,
        None => false,
    }
}

/// Decides a password check, for a cookie or a login form alike.
pub fn password_matches(supplied: Option<&String>, expected: &String) -> (r: bool)
    ensures
        r == spec_password_ok(
            match supplied {
                Some(p) => Some(p@),
                None => None,
            },
            expected@,
        ),
{
    match supplied {
        Some(p) => *p == *expected,
        None => false,
    }
}

/// How a download request is answered once the current index is known.
pub enum DownloadDecision {
    /// The supplied fingerprint is not the current one: the caller's view
    /// of the index is stale and must be refreshed first.
    Stale,
    /// The fingerprint is current but no entry has this position.
    NotFound,
    /// Serve this entry.
    Serve(DownloadFile),
}

/// Decides a download request against the current index.
///
/// The caller-supplied fingerprint authorizes the request: any mismatch is
/// rejected as stale before the entry list is even consulted.  With a
/// current fingerprint, the requested position either names an entry —
/// served exactly as the snapshot holds it — or nothing.
pub fn select_download(
    files: &Vec<DownloadFile>,
    index: usize,
    supplied_fp: u64,
    current_fp: u64,
) -> (r: DownloadDecision)
    ensures
        supplied_fp != current_fp ==> r is Stale,
        supplied_fp == current_fp && index >= files@.len() ==> r is NotFound,
        supplied_fp == current_fp && index < files@.len() ==> (r matches DownloadDecision::Serve(f)
            && f@ == files@[index as int]@),
{
    if supplied_fp != current_fp {
        DownloadDecision::Stale
    } else if index < files.len() {
        DownloadDecision::Serve(files[index].clone())
    } else {
        DownloadDecision::NotFound
    }
}

} // verus!
