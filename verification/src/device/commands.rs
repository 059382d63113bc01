//! The four-operation command contract and its backend fallback policy.
//!
//! Both backends implement the same operations against an open handle: the
//! generic backend through native tray commands, the pass-through backend
//! through SCSI command blocks. A command always tries the generic backend
//! first; if that attempt fails for any reason, the pass-through backend is
//! attempted exactly once and its outcome — success or its own error — is
//! the command's outcome.

use vstd::prelude::*;

use crate::error::Error;
use crate::scsi::{
    ejection_lock_request, eject_request, is_command_request, medium_removal_cdb, retract_request,
    start_stop_cdb, SgIoHdr,
};

verus! {

/// A tray operation of the shared command contract.
#[derive(Debug, Clone, Copy, PartialEq, Eq, Structural)]
pub enum TrayOp {
    /// Eject the medium.
    Eject,
    /// Close the tray.
    Retract,
    /// Lock (`true`) or unlock (`false`) ejection.
    SetLock(bool),
}

/// One native command of the generic backend.
#[derive(Debug, Clone, Copy, PartialEq, Eq, Structural)]
pub enum GenericCommand {
    /// The native "eject media" control.
    Eject,
    /// The native "load/close tray" control.
    CloseTray,
    /// The native "prevent/allow media removal" control with the lock
    /// boolean as its sole parameter.
    LockDoor(bool),
}

/// The commands one generic-backend attempt issues for an operation, in
/// order, stopping at the first failure: ejecting first clears the
/// ejection lock, the other operations are a single command.
pub open spec fn spec_generic_commands(op: TrayOp) -> Seq<GenericCommand> {
    match op {
        TrayOp::Eject => seq![GenericCommand::LockDoor(false), GenericCommand::Eject],
        TrayOp::Retract => seq![GenericCommand::CloseTray],
        TrayOp::SetLock(locked) => seq![GenericCommand::LockDoor(locked)],
    }
}

/// The command blocks one pass-through attempt issues for an operation, in
/// order, stopping at the first failure.
pub open spec fn spec_passthrough_cdbs(op: TrayOp) -> Seq<Seq<u8>> {
    match op {
        TrayOp::Eject => seq![medium_removal_cdb(false), start_stop_cdb(2)],
        TrayOp::Retract => seq![start_stop_cdb(3)],
        TrayOp::SetLock(locked) => seq![medium_removal_cdb(locked)],
    }
}

/// The generic backend's command sequence for `op`.
pub fn generic_commands(op: TrayOp) -> (cmds: Vec<GenericCommand>)
    ensures
        cmds@ == spec_generic_commands(op),
{
    let mut cmds: Vec<GenericCommand> = Vec::new();
    match op {
        TrayOp::Eject => {
            cmds.push(GenericCommand::LockDoor(false));
            cmds.push(GenericCommand::Eject);
        },
        TrayOp::Retract => {
            cmds.push(GenericCommand::CloseTray);
        },
        TrayOp::SetLock(locked) => {
            cmds.push(GenericCommand::LockDoor(locked));
        },
    }
    proof {
        assert(cmds@ =~= spec_generic_commands(op));
    }
    cmds
}

/// The pass-through backend's request sequence for `op`: freshly built
/// envelopes whose command blocks are `spec_passthrough_cdbs(op)`.
pub fn passthrough_requests(op: TrayOp) -> (reqs: Vec<SgIoHdr>)
    ensures
        reqs@.len() == spec_passthrough_cdbs(op).len(),
        forall|i: int|
            0 <= i < reqs@.len() ==> is_command_request(
                #[trigger] reqs@[i],
                spec_passthrough_cdbs(op)[i],
            ),
{
    let mut reqs: Vec<SgIoHdr> = Vec::new();
    match op {
        TrayOp::Eject => {
            reqs.push(ejection_lock_request(false));
            reqs.push(eject_request());
        },
        TrayOp::Retract => {
            reqs.push(retract_request());
        },
        TrayOp::SetLock(locked) => {
            reqs.push(ejection_lock_request(locked));
        },
    }
    reqs
}

/// Where a tray command stands between the two backends.
#[derive(Debug)]
pub enum CommandPhase {
    /// The generic backend is to be attempted.
    Generic,
    /// The generic attempt failed; the pass-through backend is to be
    /// attempted.
    Passthrough,
    /// The command is settled with this outcome.
    Done(Result<(), Error>),
}

/// The phase after the generic attempt: success settles the command,
/// failure of any kind hands it to the pass-through backend (the generic
/// error is not propagated).
pub open spec fn spec_after_generic(outcome: Result<(), Error>) -> CommandPhase {
    if outcome is Ok {
        CommandPhase::Done(Result::Ok(()))
    } else {
        CommandPhase::Passthrough
    }
}

/// The phase after the pass-through attempt: the command settles with that
/// attempt's own outcome.
pub open spec fn spec_after_passthrough(outcome: Result<(), Error>) -> CommandPhase {
    CommandPhase::Done(outcome)
}

/// How many pass-through attempts a command makes, given the generic
/// attempt's outcome.
pub open spec fn spec_passthrough_attempts(generic_outcome: Result<(), Error>) -> nat {
    if generic_outcome is Err {
        1nat
    } else {
        0nat
    }
}

/// The command's outcome, given both attempts' outcomes (the pass-through
/// one is consulted only when the generic attempt failed).
pub open spec fn spec_command_outcome(
    generic_outcome: Result<(), Error>,
    passthrough_outcome: Result<(), Error>,
) -> Result<(), Error> {
    if generic_outcome is Ok {
        Result::Ok(())
    } else {
        passthrough_outcome
    }
}

/// Every command starts at the generic backend.
pub fn command_start() -> (p: CommandPhase)
    ensures
        p is Generic,
{
    CommandPhase::Generic
}

/// Feeds the generic attempt's outcome to the command.
pub fn after_generic(outcome: Result<(), Error>) -> (p: CommandPhase)
    ensures
        p == spec_after_generic(outcome),
{
    match outcome {
        Ok(()) => CommandPhase::Done(Ok(())),
        Err(_) => CommandPhase::Passthrough,
    }
}

/// Feeds the pass-through attempt's outcome to the command.
pub fn after_passthrough(outcome: Result<(), Error>) -> (p: CommandPhase)
    ensures
        p == spec_after_passthrough(outcome),
{
    CommandPhase::Done(outcome)
}

/// Law: for every tray operation, a failed generic attempt triggers exactly
/// one pass-through attempt, never more, and the pass-through outcome —
/// success or its own error — is what the command returns; a successful
/// generic attempt triggers none.
pub proof fn lemma_single_fallback_attempt(
    generic_outcome: Result<(), Error>,
    passthrough_outcome: Result<(), Error>,
)
    ensures
        spec_passthrough_attempts(generic_outcome) <= 1,
        generic_outcome is Err <==> spec_passthrough_attempts(generic_outcome) == 1,
        generic_outcome is Err ==> spec_after_generic(generic_outcome) is Passthrough
            && spec_after_passthrough(passthrough_outcome) == CommandPhase::Done(
            passthrough_outcome,
        ) && spec_command_outcome(generic_outcome, passthrough_outcome) == passthrough_outcome,
        generic_outcome is Ok ==> spec_after_generic(generic_outcome) == CommandPhase::Done(
            Result::<(), Error>::Ok(()),
        ) && spec_command_outcome(generic_outcome, passthrough_outcome) == Result::<(),
            Error,
        >::Ok(()),
{
}

} // verus!
