use eject::device::commands::{
    after_generic, after_passthrough, command_start, generic_commands, passthrough_requests,
    CommandPhase, GenericCommand, TrayOp,
};
use eject::device::lock::LockRelease;
use eject::device::open::{finish_open, resolve_open, should_retry_read_only};
use eject::device::status::DriveStatus;
use eject::device::toggle::{
    eject_was_noop, eject_was_noop_with, toggle_action, ToggleAction, EJECT_NOOP_THRESHOLD_MS,
};
use eject::error::{Error, ErrorKind};

fn some_error(kind: ErrorKind) -> Error {
    Error::new(0, String::from("went wrong"), kind)
}

#[test]
fn status_code_mapping_is_total() {
    assert_eq!(DriveStatus::from_raw_code(1).unwrap(), DriveStatus::Empty);
    assert_eq!(DriveStatus::from_raw_code(2).unwrap(), DriveStatus::TrayOpen);
    assert_eq!(DriveStatus::from_raw_code(3).unwrap(), DriveStatus::NotReady);
    assert_eq!(DriveStatus::from_raw_code(4).unwrap(), DriveStatus::Loaded);

    let unsupported = DriveStatus::from_raw_code(0).unwrap_err();
    assert_eq!(unsupported.kind(), ErrorKind::UnsupportedOperation);
    assert_eq!(unsupported.os_code(), None);
    assert_eq!(unsupported.message(), "cannot get drive status");

    let unknown = DriveStatus::from_raw_code(7).unwrap_err();
    assert_eq!(unknown.kind(), ErrorKind::Unknown);
    assert_eq!(
        unknown.message(),
        "CDROM_DRIVE_STATUS returned unknown status: 7"
    );

    let negative = DriveStatus::from_raw_code(-3).unwrap_err();
    assert_eq!(negative.kind(), ErrorKind::Unknown);
    assert_eq!(
        negative.message(),
        "CDROM_DRIVE_STATUS returned unknown status: -3"
    );
}

#[test]
fn tray_open_only_for_open_tray() {
    assert!(!DriveStatus::Empty.tray_open());
    assert!(DriveStatus::TrayOpen.tray_open());
    assert!(!DriveStatus::NotReady.tray_open());
    assert!(!DriveStatus::Loaded.tray_open());
}

#[test]
fn drive_status_is_totally_ordered() {
    assert!(DriveStatus::Empty < DriveStatus::TrayOpen);
    assert!(DriveStatus::TrayOpen < DriveStatus::NotReady);
    assert!(DriveStatus::NotReady < DriveStatus::Loaded);
}

#[test]
fn media_event_mapping() {
    assert_eq!(DriveStatus::from_media_event(0), DriveStatus::Empty);
    assert_eq!(DriveStatus::from_media_event(2), DriveStatus::Loaded);
    assert_eq!(DriveStatus::from_media_event(1), DriveStatus::TrayOpen);
    assert_eq!(DriveStatus::from_media_event(0x55), DriveStatus::TrayOpen);
}

#[test]
fn generic_success_settles_without_fallback() {
    assert!(matches!(command_start(), CommandPhase::Generic));
    match after_generic(Ok(())) {
        CommandPhase::Done(Ok(())) => {}
        _ => panic!("a successful generic attempt must settle the command"),
    }
}

#[test]
fn generic_failure_triggers_one_passthrough_attempt() {
    // Any generic failure hands the command to the pass-through backend.
    match after_generic(Err(some_error(ErrorKind::UnsupportedOperation))) {
        CommandPhase::Passthrough => {}
        _ => panic!("a failed generic attempt must hand over to pass-through"),
    }
    // The pass-through outcome settles the command, success or not.
    match after_passthrough(Ok(())) {
        CommandPhase::Done(Ok(())) => {}
        _ => panic!("pass-through success must settle the command"),
    }
    match after_passthrough(Err(some_error(ErrorKind::Unknown))) {
        CommandPhase::Done(Err(e)) => assert_eq!(e.kind(), ErrorKind::Unknown),
        _ => panic!("the pass-through error must be the command's outcome"),
    }
}

#[test]
fn generic_command_sequences() {
    assert_eq!(
        generic_commands(TrayOp::Eject),
        vec![GenericCommand::LockDoor(false), GenericCommand::Eject]
    );
    assert_eq!(
        generic_commands(TrayOp::Retract),
        vec![GenericCommand::CloseTray]
    );
    assert_eq!(
        generic_commands(TrayOp::SetLock(true)),
        vec![GenericCommand::LockDoor(true)]
    );
    assert_eq!(
        generic_commands(TrayOp::SetLock(false)),
        vec![GenericCommand::LockDoor(false)]
    );
}

#[test]
fn passthrough_request_sequences() {
    let eject = passthrough_requests(TrayOp::Eject);
    assert_eq!(eject.len(), 2);
    assert_eq!(eject[0].cmd, vec![0x1e, 0, 0, 0, 0, 0]);
    assert_eq!(eject[1].cmd, vec![0x1b, 0, 0, 0, 2, 0]);

    let retract = passthrough_requests(TrayOp::Retract);
    assert_eq!(retract.len(), 1);
    assert_eq!(retract[0].cmd, vec![0x1b, 0, 0, 0, 3, 0]);

    let lock = passthrough_requests(TrayOp::SetLock(true));
    assert_eq!(lock.len(), 1);
    assert_eq!(lock[0].cmd, vec![0x1e, 0, 0, 0, 1, 0]);
}

#[test]
fn open_retries_read_only_exactly_on_denial() {
    let denied: Result<i32, Error> = Err(Error::new(13, String::from("denied"), ErrorKind::AccessDenied));
    assert!(should_retry_read_only(&denied));
    let missing: Result<i32, Error> = Err(Error::new(2, String::from("missing"), ErrorKind::NotFound));
    assert!(!should_retry_read_only(&missing));
    let opened: Result<i32, Error> = Ok(3);
    assert!(!should_retry_read_only(&opened));
}

#[test]
fn denied_open_surfaces_the_read_only_error() {
    let read_write: Result<i32, Error> =
        Err(Error::new(13, String::from("rw denied"), ErrorKind::AccessDenied));
    let read_only: Result<i32, Error> =
        Err(Error::new(13, String::from("ro denied"), ErrorKind::AccessDenied));
    let out = resolve_open(read_write, Some(read_only));
    let e = out.unwrap_err();
    assert_eq!(e.kind(), ErrorKind::AccessDenied);
    assert_eq!(e.message(), "ro denied");
}

#[test]
fn open_reclassifies_invalid_argument() {
    let invalid: Result<i32, Error> =
        Err(Error::new(22, String::from("Invalid argument"), ErrorKind::Unknown));
    let e = finish_open(invalid).unwrap_err();
    assert_eq!(e.kind(), ErrorKind::InvalidPath);
    assert_eq!(e.os_code(), Some(22));
    assert_eq!(e.message(), "Invalid argument");

    let opened = finish_open(Ok(5)).unwrap();
    assert_eq!(opened, 5);
}

#[test]
fn toggle_follows_reported_status() {
    assert_eq!(
        toggle_action(&Ok(DriveStatus::TrayOpen)),
        ToggleAction::CloseTray
    );
    assert_eq!(toggle_action(&Ok(DriveStatus::Empty)), ToggleAction::OpenTray);
    assert_eq!(toggle_action(&Ok(DriveStatus::Loaded)), ToggleAction::OpenTray);
    assert_eq!(
        toggle_action(&Ok(DriveStatus::NotReady)),
        ToggleAction::OpenTray
    );
    assert_eq!(
        toggle_action(&Err(some_error(ErrorKind::UnsupportedOperation))),
        ToggleAction::TimedEject
    );
}

#[test]
fn toggling_twice_restores_the_tray() {
    // A closed drive with working status: the first toggle opens, the
    // second closes again.
    let first = toggle_action(&Ok(DriveStatus::Loaded));
    assert_eq!(first, ToggleAction::OpenTray);
    let second = toggle_action(&Ok(DriveStatus::TrayOpen));
    assert_eq!(second, ToggleAction::CloseTray);
    assert_ne!(first, second);
}

#[test]
fn timed_eject_heuristic() {
    assert_eq!(EJECT_NOOP_THRESHOLD_MS, 100);
    assert!(eject_was_noop(0));
    assert!(eject_was_noop(99));
    assert!(!eject_was_noop(100));
    assert!(!eject_was_noop(2500));
    assert!(eject_was_noop_with(150, 200));
    assert!(!eject_was_noop_with(250, 200));
}

#[test]
fn lock_release_issues_unlock_exactly_once() {
    let mut duty = LockRelease::new();
    assert!(duty.release());
    assert!(!duty.release());
    assert!(!duty.release());
}
