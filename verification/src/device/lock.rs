//! The release duty of an ejection-lock guard.
//!
//! Locking ejection hands the caller a scoped guard; when the guard goes
//! away — by a normal exit, an early return, or error propagation — the
//! unlock command must be issued exactly once. The duty below carries that
//! obligation: the guard's release path consumes it and issues the unlock
//! command only when the duty was still armed.

use vstd::prelude::*;

verus! {

/// The single unlock action an ejection-lock guard owes its drive.
pub struct LockRelease {
    /// Whether the unlock command is still owed.
    pub armed: bool,
}

/// Consuming the duty: what a release call returns (whether to issue the
/// unlock command now) and the duty it leaves behind.
pub open spec fn spec_release(s: LockRelease) -> (bool, LockRelease) {
    (s.armed, LockRelease { armed: false })
}

impl LockRelease {
    /// A freshly asserted lock owes its release.
    pub fn new() -> (s: LockRelease)
        ensures
            s.armed,
    {
        LockRelease { armed: true }
    }

    /// Consumes the duty and says whether the unlock command must be issued
    /// now. Only the first call on an armed duty says yes.
    pub fn release(&mut self) -> (issue: bool)
        ensures
            issue == old(self).armed,
            !final(self).armed,
            (issue, *final(self)) == spec_release(*old(self)),
    {
        let was_armed = self.armed;
        self.armed = false;
        was_armed
    }
}

/// Law: however many times a guard's release path runs, the unlock command
/// is issued exactly once — by the first release of an armed duty; every
/// later release is a no-op, and stays one.
pub proof fn lemma_release_exactly_once(s0: LockRelease)
    requires
        s0.armed,
    ensures
        spec_release(s0).0,
        !spec_release(spec_release(s0).1).0,
        spec_release(spec_release(s0).1).1 == spec_release(s0).1,
{
}

} // verus!
