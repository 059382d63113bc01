//! The decision behind toggling the tray.
//!
//! Toggling queries the drive's status first. When the query works, the
//! answer dictates the action; when the platform cannot report status at
//! all, the fallback is a timed eject: an eject call that returns almost
//! immediately was the OS acknowledging a no-op on an already-open tray.

use vstd::prelude::*;

use crate::device::status::DriveStatus;
use crate::error::Error;

verus! {

/// Under this many milliseconds, an eject call on a status-less drive is
/// taken for a no-op on an already-open tray. An empirical threshold; the
/// timed decisions also come in a variant that takes the threshold as an
/// argument.
pub const EJECT_NOOP_THRESHOLD_MS: u128 = 100;

/// What a toggle does, given the status query's outcome.
#[derive(Debug, Clone, Copy, PartialEq, Eq, Structural)]
pub enum ToggleAction {
    /// The tray is open: retract it and report the tray closed (`false`).
    CloseTray,
    /// The tray is closed: eject and report the tray opened (`true`).
    OpenTray,
    /// Status cannot be queried: eject unconditionally, time the call, and
    /// decide by the timing heuristic.
    TimedEject,
}

/// The action a toggle takes for a status outcome.
pub open spec fn spec_toggle_action(status: Result<DriveStatus, Error>) -> ToggleAction {
    match status {
        Ok(s) => if s is TrayOpen {
            ToggleAction::CloseTray
        } else {
            ToggleAction::OpenTray
        },
        Err(_) => ToggleAction::TimedEject,
    }
}

/// Whether a timed eject was the OS's no-op acknowledgment of an
/// already-open tray: it returned faster than the threshold. The tray must
/// then be retracted again and reported closed; otherwise the eject
/// genuinely opened the tray.
pub open spec fn spec_eject_was_noop(elapsed_ms: u128, threshold_ms: u128) -> bool {
    elapsed_ms < threshold_ms
}

/// Whether the action reports the tray as opened (`true`) or closed
/// (`false`).
pub open spec fn spec_toggle_reports_open(a: ToggleAction) -> bool
    recommends
        !(a is TimedEject),
{
    a is OpenTray
}

/// The tray position after the action, for a drive whose eject opens the
/// tray and whose retract closes it.
pub open spec fn spec_tray_after(a: ToggleAction, open_before: bool) -> bool
    recommends
        !(a is TimedEject),
{
    match a {
        ToggleAction::CloseTray => false,
        ToggleAction::OpenTray => true,
        ToggleAction::TimedEject => open_before,
    }
}

/// Decides what a toggle does for this status outcome.
pub fn toggle_action(status: &Result<DriveStatus, Error>) -> (a: ToggleAction)
    ensures
        a == spec_toggle_action(*status),
{
    match status {
        Ok(s) => {
            if s.tray_open() {
                ToggleAction::CloseTray
            } else {
                ToggleAction::OpenTray
            }
        },
        Err(_) => ToggleAction::TimedEject,
    }
}

/// Decides whether a timed eject was a no-op, against the given threshold.
pub fn eject_was_noop_with(elapsed_ms: u128, threshold_ms: u128) -> (noop: bool)
    ensures
        noop == spec_eject_was_noop(elapsed_ms, threshold_ms),
{
    elapsed_ms < threshold_ms
}

/// Decides whether a timed eject was a no-op, against the default
/// threshold.
pub fn eject_was_noop(elapsed_ms: u128) -> (noop: bool)
    ensures
        noop == spec_eject_was_noop(elapsed_ms, EJECT_NOOP_THRESHOLD_MS as u128),
{
    eject_was_noop_with(elapsed_ms, EJECT_NOOP_THRESHOLD_MS)
}

/// Law: on a drive with working status support, two toggles return `true`
/// then `false` (or the other way round) and leave the tray in its original
/// position. `first` and `second` are the status outcomes the two toggles
/// observe on a drive that reports its tray position truthfully.
pub proof fn lemma_toggle_twice_restores(
    open: bool,
    first: Result<DriveStatus, Error>,
    second: Result<DriveStatus, Error>,
)
    requires
        first matches Ok(s) && (s is TrayOpen) == open,
        second matches Ok(s) && (s is TrayOpen) == !open,
    ensures
        ({
            let a1 = spec_toggle_action(first);
            let a2 = spec_toggle_action(second);
            &&& spec_toggle_reports_open(a1) == !open
            &&& spec_tray_after(a1, open) == !open
            &&& spec_toggle_reports_open(a2) == open
            &&& spec_toggle_reports_open(a1) != spec_toggle_reports_open(a2)
            &&& spec_tray_after(a2, spec_tray_after(a1, open)) == open
        }),
{
}

} // verus!
