//! Find available devices.
//!
//! Discovery consults a short static list of conventional drive paths
//! first, opening each in turn: a missing device moves the scan to the
//! next candidate, anything else — a successful open or a different error
//! — ends it at once. When the whole list is exhausted the scan fails with
//! a fixed "no drive" error. Richer enumeration comes in two strategies:
//! probing indexed drive names while each exists ([`probe`]) and scanning
//! a directory of device identifiers with deduplication ([`scan`]).

pub mod probe;
pub mod scan;

use vstd::prelude::*;

use crate::error::{Error, ErrorKind};

verus! {

/// Whether the candidate scan continues past this open failure: only a
/// missing device does; any other error is surfaced at once.
pub open spec fn spec_keep_scanning(e: Error) -> bool {
    e.kind == ErrorKind::NotFound
}

/// The message of the error an exhausted scan surfaces.
pub open spec fn spec_no_drive_message() -> Seq<char> {
    "No CD drive found"@
}

/// Holds of the error an exhausted scan surfaces: no OS code, a missing
/// device, and the fixed message.
pub open spec fn spec_is_no_drive_error(e: Error) -> bool {
    e.code == 0 && e.kind == ErrorKind::NotFound && e.message@ == spec_no_drive_message()
}

/// Which open failure the candidate scan surfaces, given the failures of
/// the candidates in order (a successful open would have ended the scan
/// before them): the first that is not a missing device. `None` means the
/// whole list was missing devices and the fixed "no drive" error stands.
pub open spec fn spec_scan_verdict(errs: Seq<Error>) -> Option<int>
    decreases errs.len(),
{
    if errs.len() == 0 {
        None
    } else if !spec_keep_scanning(errs[0]) {
        Some(0)
    } else {
        match spec_scan_verdict(errs.skip(1)) {
            None => None,
            Some(i) => Some(i + 1),
        }
    }
}

/// The static list of conventional drive paths, consulted in order.
pub fn cdrom_candidate_paths() -> (paths: Vec<&'static str>)
    ensures
        paths@.len() == 2,
        paths@[0]@ == "/dev/cdrom"@,
        paths@[1]@ == "/dev/sr0"@,
{
    let mut paths: Vec<&'static str> = Vec::new();
    paths.push("/dev/cdrom");
    paths.push("/dev/sr0");
    paths
}

/// Decides whether the candidate scan continues past this open failure.
pub fn keep_scanning(e: &Error) -> (keep: bool)
    ensures
        keep == spec_keep_scanning(*e),
{
    e.kind() == ErrorKind::NotFound
}

/// The error an exhausted candidate scan surfaces.
pub fn no_drive_error() -> (e: Error)
    ensures
        spec_is_no_drive_error(e),
        e.message@.len() > 0,
{
    let e = Error::new(0, String::from_str("No CD drive found"), ErrorKind::NotFound);
    proof {
        reveal_strlit("No CD drive found");
    }
    e
}

/// Resolves which failure a finished candidate scan surfaces: the index of
/// the first error that is not a missing device, or `None` when the fixed
/// "no drive" error stands.
pub fn scan_verdict(errs: &Vec<Error>) -> (verdict: Option<usize>)
    ensures
        verdict matches Some(i) ==> spec_scan_verdict(errs@) == Some(i as int),
        verdict is None ==> spec_scan_verdict(errs@) is None,
{
    let mut idx: usize = 0;
    proof {
        assert(errs@.skip(0) =~= errs@);
    }
    while idx < errs.len()
        invariant
            idx <= errs@.len(),
            spec_scan_verdict(errs@) == match spec_scan_verdict(errs@.skip(idx as int)) {
                None => None::<int>,
                Some(i) => Some(i + idx),
            },
        decreases errs@.len() - idx,
    {
        proof {
            assert(errs@.skip(idx as int)[0] == errs@[idx as int]);
            assert(errs@.skip(idx as int).skip(1) =~= errs@.skip(idx as int + 1));
        }
        if !keep_scanning(&errs[idx]) {
            return Some(idx);
        }
        idx = idx + 1;
    }
    proof {
        assert(errs@.skip(idx as int).len() == 0);
    }
    None
}

/// Law: a candidate scan whose list is empty, or whose every candidate is
/// a missing device, surfaces no candidate's own error; what it fails with
/// is the fixed error — kind `NotFound`, no OS code, and a non-empty
/// message.
pub proof fn lemma_exhausted_scan_not_found(errs: Seq<Error>)
    requires
        forall|j: int| 0 <= j < errs.len() ==> #[trigger] spec_keep_scanning(errs[j]),
    ensures
        spec_scan_verdict(errs) is None,
        spec_no_drive_message().len() > 0,
    decreases errs.len(),
{
    reveal_strlit("No CD drive found");
    if errs.len() > 0 {
        assert(spec_keep_scanning(errs[0]));
        assert forall|j: int| 0 <= j < errs.skip(1).len() implies #[trigger] spec_keep_scanning(
            errs.skip(1)[j],
        ) by {
            assert(errs.skip(1)[j] == errs[j + 1]);
        }
        lemma_exhausted_scan_not_found(errs.skip(1));
    }
}

} // verus!
