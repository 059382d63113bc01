//! The indexed-probe enumeration strategy.
//!
//! Where drives carry indexed names, discovery probes index 0, 1, 2, …
//! with a lightweight open-without-commands probe while each exists, and
//! stops at the first index that does not — probing no further than
//! needed to confirm that absence.

use vstd::prelude::*;

use crate::text::{decimal_str, decimal_string};

verus! {

/// The index at which the probe stops: the first with no drive, taking
/// everything beyond the end of the environment as absent. `present[i]`
/// says whether a drive exists at index `i`.
pub open spec fn spec_first_absent(present: Seq<bool>) -> int
    decreases present.len(),
{
    if present.len() == 0 {
        0
    } else if !present[0] {
        0
    } else {
        1 + spec_first_absent(present.skip(1))
    }
}

/// The stopping index is within the environment (or just past it), every
/// index before it has a drive, and the index itself — when the
/// environment reaches it — has none.
pub proof fn lemma_first_absent_characterization(present: Seq<bool>)
    ensures
        0 <= spec_first_absent(present) <= present.len(),
        forall|j: int| 0 <= j < spec_first_absent(present) ==> present[j],
        spec_first_absent(present) < present.len() ==> !present[spec_first_absent(present)],
    decreases present.len(),
{
    if present.len() > 0 && present[0] {
        lemma_first_absent_characterization(present.skip(1));
        assert forall|j: int| 0 <= j < spec_first_absent(present) implies present[j] by {
            if j > 0 {
                assert(present.skip(1)[j - 1] == present[j]);
            }
        }
        if spec_first_absent(present) < present.len() {
            assert(present.skip(1)[spec_first_absent(present) - 1] == present[spec_first_absent(
                present,
            )]);
        }
    }
}

/// The indexed drive name for a probe index: `CdRom` followed by the index
/// in decimal.
pub open spec fn spec_indexed_drive_path(i: int) -> Seq<char> {
    "CdRom"@ + decimal_str(i)
}

/// Builds the indexed drive name for a probe index.
pub fn indexed_drive_path(i: u64) -> (path: String)
    ensures
        path@ == spec_indexed_drive_path(i as int),
{
    let rendered = decimal_string(i);
    String::from_str("CdRom").concat(rendered.as_str())
}

/// Runs the probe strategy against an environment: yields the indices that
/// have a drive, in ascending order from 0, and reports how many probes
/// were made — one per drive found plus, unless the environment ran out
/// first, the single probe that confirmed absence.
pub fn probe_scan(present: &Vec<bool>) -> (r: (Vec<u64>, usize))
    ensures
        r.0@.len() == spec_first_absent(present@),
        forall|i: int| 0 <= i < r.0@.len() ==> r.0@[i] == i,
        r.1 == if spec_first_absent(present@) < present@.len() {
            spec_first_absent(present@) + 1
        } else {
            present@.len() as int
        },
{
    proof {
        lemma_first_absent_characterization(present@);
    }
    let mut found: Vec<u64> = Vec::new();
    let mut idx: usize = 0;
    while idx < present.len() && present[idx]
        invariant
            idx <= present@.len(),
            idx <= spec_first_absent(present@),
            forall|j: int| 0 <= j < idx ==> present@[j],
            found@.len() == idx,
            forall|i: int| 0 <= i < found@.len() ==> found@[i] == i,
            0 <= spec_first_absent(present@) <= present@.len(),
            forall|j: int| 0 <= j < spec_first_absent(present@) ==> present@[j],
            spec_first_absent(present@) < present@.len() ==> !present@[spec_first_absent(
                present@,
            )],
        decreases present@.len() - idx,
    {
        found.push(idx as u64);
        idx = idx + 1;
        proof {
            assert(idx <= spec_first_absent(present@)) by {
                if spec_first_absent(present@) < idx {
                    assert(present@[spec_first_absent(present@)]);
                }
            }
        }
    }
    proof {
        assert(idx == spec_first_absent(present@)) by {
            if idx < spec_first_absent(present@) {
                assert(present@[idx as int]);
            }
        }
    }
    if idx < present.len() {
        (found, idx + 1)
    } else {
        (found, idx)
    }
}

} // verus!
