//! The directory-scan enumeration strategy.
//!
//! Where the platform exposes a directory of stable device identifiers,
//! discovery canonicalizes each entry, keeps those whose canonical path
//! names an optical drive, and deduplicates with a seen-set so that two
//! entries canonicalizing to the same device yield it only once.

use vstd::prelude::*;

verus! {

/// A decimal digit byte.
pub open spec fn is_ascii_digit(b: u8) -> bool {
    48 <= b <= 57
}

/// The bytes of `/dev/sr`, the platform's optical-drive name prefix.
pub open spec fn dev_sr_prefix() -> Seq<u8> {
    seq![47u8, 100u8, 101u8, 118u8, 47u8, 115u8, 114u8]
}

/// Whether a canonical path names an optical drive: `/dev/sr` followed by
/// decimal digits only.
pub open spec fn spec_is_cd_device_path(path: Seq<u8>) -> bool {
    &&& path.len() >= 7
    &&& path.subrange(0, 7) == dev_sr_prefix()
    &&& forall|i: int| 7 <= i < path.len() ==> is_ascii_digit(#[trigger] path[i])
}

/// Checks whether the path is `/dev/sr` followed by any number of digits.
pub fn is_cd_device_path(path: &Vec<u8>) -> (is_cd: bool)
    ensures
        is_cd == spec_is_cd_device_path(path@),
{
    if path.len() < 7 {
        return false;
    }
    let prefix_matches = path[0] == 47 && path[1] == 100 && path[2] == 101 && path[3] == 118
        && path[4] == 47 && path[5] == 115 && path[6] == 114;
    if !prefix_matches {
        proof {
            if path@.subrange(0, 7) == dev_sr_prefix() {
                assert(forall|k: int| 0 <= k < 7 ==> path@[k] == #[trigger] dev_sr_prefix()[k])
                    by {
                    assert(forall|k: int|
                        0 <= k < 7 ==> path@[k] == #[trigger] path@.subrange(0, 7)[k]);
                }
            }
        }
        return false;
    }
    let mut idx: usize = 7;
    while idx < path.len()
        invariant
            7 <= idx <= path@.len(),
            forall|i: int| 7 <= i < idx ==> is_ascii_digit(#[trigger] path@[i]),
        decreases path@.len() - idx,
    {
        let b = path[idx];
        if b < 48 || b > 57 {
            return false;
        }
        idx = idx + 1;
    }
    proof {
        assert(path@.subrange(0, 7) =~= dev_sr_prefix());
    }
    true
}

/// Copies a byte path.
fn clone_bytes(path: &Vec<u8>) -> (copy: Vec<u8>)
    ensures
        copy@ == path@,
{
    let mut copy: Vec<u8> = Vec::new();
    let mut idx: usize = 0;
    while idx < path.len()
        invariant
            idx <= path@.len(),
            copy@ == path@.subrange(0, idx as int),
        decreases path@.len() - idx,
    {
        copy.push(path[idx]);
        idx = idx + 1;
        proof {
            assert(copy@ =~= path@.subrange(0, idx as int));
        }
    }
    proof {
        assert(copy@ =~= path@);
    }
    copy
}

/// Compares two byte paths.
fn bytes_eq(a: &Vec<u8>, b: &Vec<u8>) -> (eq: bool)
    ensures
        eq == (a@ == b@),
{
    if a.len() != b.len() {
        return false;
    }
    let mut idx: usize = 0;
    while idx < a.len()
        invariant
            idx <= a@.len(),
            a@.len() == b@.len(),
            forall|i: int| 0 <= i < idx ==> a@[i] == b@[i],
        decreases a@.len() - idx,
    {
        if a[idx] != b[idx] {
            return false;
        }
        idx = idx + 1;
    }
    proof {
        assert(a@ =~= b@);
    }
    true
}

/// The deduplicating filter behind the directory scan: it yields a
/// canonical path when it names an optical drive and has not been yielded
/// before.
pub struct DriveScan {
    /// The canonical paths already yielded, in yield order.
    pub seen: Vec<Vec<u8>>,
}

impl DriveScan {
    /// The set of canonical paths already yielded.
    pub open spec fn seen_set(&self) -> Set<Seq<u8>> {
        Set::new(
            |p: Seq<u8>|
                exists|i: int| 0 <= i < self.seen@.len() && (#[trigger] self.seen@[i])@ == p,
        )
    }

    /// A fresh scan has yielded nothing.
    pub fn new() -> (s: DriveScan)
        ensures
            s.seen@.len() == 0,
            s.seen_set() == Set::<Seq<u8>>::empty(),
    {
        let s = DriveScan { seen: Vec::new() };
        proof {
            assert(s.seen_set() =~= Set::<Seq<u8>>::empty());
        }
        s
    }

    /// Whether this canonical path has been yielded before.
    pub fn already_yielded(&self, path: &Vec<u8>) -> (yielded: bool)
        ensures
            yielded == self.seen_set().contains(path@),
    {
        let mut idx: usize = 0;
        while idx < self.seen.len()
            invariant
                idx <= self.seen@.len(),
                forall|i: int| 0 <= i < idx ==> (#[trigger] self.seen@[i])@ != path@,
            decreases self.seen@.len() - idx,
        {
            if bytes_eq(&self.seen[idx], path) {
                return true;
            }
            idx = idx + 1;
        }
        false
    }

    /// Offers the canonical path of the next directory entry: yields it
    /// (and remembers it) exactly when it names an optical drive that the
    /// scan has not yielded before.
    pub fn offer(&mut self, path: &Vec<u8>) -> (yielded: bool)
        ensures
            yielded == (spec_is_cd_device_path(path@) && !old(self).seen_set().contains(path@)),
            yielded ==> final(self).seen_set() == old(self).seen_set().insert(path@),
            !yielded ==> final(self).seen_set() == old(self).seen_set(),
    {
        if !is_cd_device_path(path) {
            return false;
        }
        if self.already_yielded(path) {
            return false;
        }
        let copy = clone_bytes(path);
        self.seen.push(copy);
        proof {
            let pre = old(self).seen@;
            let post = self.seen@;
            assert forall|p: Seq<u8>| #[trigger]
                self.seen_set().contains(p) implies old(self).seen_set().insert(path@).contains(
                p,
            ) by {
                let i = choose|i: int| 0 <= i < post.len() && (#[trigger] post[i])@ == p;
                if i < pre.len() {
                    assert(pre[i]@ == p);
                } else {
                    assert(post[i]@ == path@);
                }
            }
            assert forall|p: Seq<u8>| #[trigger]
                old(self).seen_set().insert(path@).contains(p) implies self.seen_set().contains(
                p,
            ) by {
                if p == path@ {
                    assert(post[post.len() - 1]@ == p);
                } else {
                    let i = choose|i: int| 0 <= i < pre.len() && (#[trigger] pre[i])@ == p;
                    assert(post[i]@ == p);
                }
            }
            assert(self.seen_set() =~= old(self).seen_set().insert(path@));
        }
        true
    }
}

/// What the directory scan yields, in order, for the canonical paths of
/// the directory entries in enumeration order, having already yielded
/// `seen`: the optical-drive paths among them, each at its first
/// occurrence only.
pub open spec fn spec_scan_yields(entries: Seq<Seq<u8>>, seen: Set<Seq<u8>>) -> Seq<Seq<u8>>
    decreases entries.len(),
{
    if entries.len() == 0 {
        Seq::empty()
    } else {
        let first = entries[0];
        if spec_is_cd_device_path(first) && !seen.contains(first) {
            seq![first] + spec_scan_yields(entries.skip(1), seen.insert(first))
        } else {
            spec_scan_yields(entries.skip(1), seen)
        }
    }
}

/// The canonical paths of a sequence of entries.
pub open spec fn paths_view(entries: Seq<Vec<u8>>) -> Seq<Seq<u8>> {
    entries.map_values(|v: Vec<u8>| v@)
}

/// Runs the whole scan over the canonical paths of a directory's entries.
pub fn scan_paths(entries: &Vec<Vec<u8>>) -> (yielded: Vec<Vec<u8>>)
    ensures
        paths_view(yielded@) == spec_scan_yields(paths_view(entries@), Set::empty()),
{
    let mut scan = DriveScan::new();
    let mut yielded: Vec<Vec<u8>> = Vec::new();
    let mut idx: usize = 0;
    proof {
        assert(paths_view(entries@).skip(0) =~= paths_view(entries@));
        assert(paths_view(yielded@) =~= Seq::<Seq<u8>>::empty());
        assert(paths_view(yielded@) + spec_scan_yields(paths_view(entries@), scan.seen_set())
            =~= spec_scan_yields(paths_view(entries@), scan.seen_set()));
    }
    while idx < entries.len()
        invariant
            idx <= entries@.len(),
            spec_scan_yields(paths_view(entries@), Set::empty()) == paths_view(yielded@)
                + spec_scan_yields(
                paths_view(entries@).skip(idx as int),
                scan.seen_set(),
            ),
        decreases entries@.len() - idx,
    {
        proof {
            assert(paths_view(entries@).skip(idx as int)[0] == entries@[idx as int]@);
            assert(paths_view(entries@).skip(idx as int).skip(1) =~= paths_view(entries@).skip(
                idx as int + 1,
            ));
        }
        let ghost pre_yields = paths_view(yielded@);
        let entry = &entries[idx];
        if scan.offer(entry) {
            let copy = clone_bytes(entry);
            yielded.push(copy);
            proof {
                assert(paths_view(yielded@) =~= pre_yields + seq![entries@[idx as int]@]);
                assert(pre_yields + (seq![entries@[idx as int]@] + spec_scan_yields(
                    paths_view(entries@).skip(idx as int + 1),
                    scan.seen_set(),
                )) =~= paths_view(yielded@) + spec_scan_yields(
                    paths_view(entries@).skip(idx as int + 1),
                    scan.seen_set(),
                ));
            }
        }
        idx = idx + 1;
    }
    proof {
        assert(spec_scan_yields(paths_view(entries@).skip(idx as int), scan.seen_set())
            =~= Seq::<Seq<u8>>::empty());
        assert(paths_view(yielded@) =~= paths_view(yielded@) + Seq::<Seq<u8>>::empty());
    }
    yielded
}

/// Nothing the scan yields was in its seen-set to begin with.
proof fn lemma_scan_yields_fresh(entries: Seq<Seq<u8>>, seen: Set<Seq<u8>>)
    ensures
        forall|k: int|
            0 <= k < spec_scan_yields(entries, seen).len() ==> !seen.contains(
                #[trigger] spec_scan_yields(entries, seen)[k],
            ),
    decreases entries.len(),
{
    if entries.len() > 0 {
        let first = entries[0];
        if spec_is_cd_device_path(first) && !seen.contains(first) {
            lemma_scan_yields_fresh(entries.skip(1), seen.insert(first));
            assert forall|k: int|
                0 <= k < spec_scan_yields(entries, seen).len() implies !seen.contains(
                #[trigger] spec_scan_yields(entries, seen)[k],
            ) by {
                if k == 0 {
                    assert(spec_scan_yields(entries, seen)[0] == first);
                } else {
                    assert(spec_scan_yields(entries, seen)[k] == spec_scan_yields(
                        entries.skip(1),
                        seen.insert(first),
                    )[k - 1]);
                }
            }
        } else {
            lemma_scan_yields_fresh(entries.skip(1), seen);
            assert forall|k: int|
                0 <= k < spec_scan_yields(entries, seen).len() implies !seen.contains(
                #[trigger] spec_scan_yields(entries, seen)[k],
            ) by {
                assert(spec_scan_yields(entries, seen)[k] == spec_scan_yields(
                    entries.skip(1),
                    seen,
                )[k]);
            }
        }
    }
}

/// Law: the directory scan never yields the same canonical path twice,
/// even when two directory entries canonicalize to it.
pub proof fn lemma_scan_never_repeats(entries: Seq<Seq<u8>>, seen: Set<Seq<u8>>)
    ensures
        forall|i: int, j: int|
            0 <= i < j < spec_scan_yields(entries, seen).len() ==> spec_scan_yields(entries, seen)[i]
                != spec_scan_yields(entries, seen)[j],
    decreases entries.len(),
{
    if entries.len() > 0 {
        let first = entries[0];
        if spec_is_cd_device_path(first) && !seen.contains(first) {
            lemma_scan_never_repeats(entries.skip(1), seen.insert(first));
            lemma_scan_yields_fresh(entries.skip(1), seen.insert(first));
            let rest = spec_scan_yields(entries.skip(1), seen.insert(first));
            assert forall|i: int, j: int|
                0 <= i < j < spec_scan_yields(entries, seen).len() implies spec_scan_yields(
                entries,
                seen,
            )[i] != spec_scan_yields(entries, seen)[j] by {
                if i == 0 {
                    assert(spec_scan_yields(entries, seen)[0] == first);
                    assert(spec_scan_yields(entries, seen)[j] == rest[j - 1]);
                    assert(!seen.insert(first).contains(rest[j - 1]));
                    assert(seen.insert(first).contains(first));
                } else {
                    assert(spec_scan_yields(entries, seen)[i] == rest[i - 1]);
                    assert(spec_scan_yields(entries, seen)[j] == rest[j - 1]);
                }
            }
        } else {
            lemma_scan_never_repeats(entries.skip(1), seen);
            assert forall|i: int, j: int|
                0 <= i < j < spec_scan_yields(entries, seen).len() implies spec_scan_yields(
                entries,
                seen,
            )[i] != spec_scan_yields(entries, seen)[j] by {
                assert(spec_scan_yields(entries, seen)[i] == spec_scan_yields(
                    entries.skip(1),
                    seen,
                )[i]);
                assert(spec_scan_yields(entries, seen)[j] == spec_scan_yields(
                    entries.skip(1),
                    seen,
                )[j]);
            }
        }
    }
}

} // verus!
