use eject::error::ErrorKind;
use eject::scsi::{
    eject_request, ejection_lock_request, retract_request, status_notification_request_cdb,
    DxferDirection, SgIoHdr, COMMAND_TIMEOUT_MS, SENSE_BUFFER_LEN, SG_INTERFACE_ID_ORIG,
};

#[test]
fn direction_codes_match_the_kernel_interface() {
    assert_eq!(DxferDirection::NoTransfer.code(), -1);
    assert_eq!(DxferDirection::ToDev.code(), -2);
    assert_eq!(DxferDirection::FromDev.code(), -3);
    assert_eq!(DxferDirection::ToFromDev.code(), -4);
    assert_eq!(DxferDirection::Unknown.code(), -5);
}

#[test]
fn default_envelope_is_all_zero() {
    let h = SgIoHdr::default();
    assert_eq!(h.interface_id, SG_INTERFACE_ID_ORIG);
    assert_eq!(h.interface_id, 'S' as i32);
    assert_eq!(h.dxfer_direction, DxferDirection::NoTransfer);
    assert_eq!(h.mx_sb_len, 0);
    assert_eq!(h.dxfer_len, 0);
    assert!(h.cmd.is_empty());
    assert_eq!(h.timeout, 0);
    assert_eq!(h.host_status, 0);
    assert_eq!(h.driver_status, 0);
}

#[test]
fn command_envelopes_carry_sense_space_and_timeout() {
    let h = eject_request();
    assert_eq!(h.interface_id, SG_INTERFACE_ID_ORIG);
    assert_eq!(h.dxfer_direction, DxferDirection::NoTransfer);
    assert_eq!(h.mx_sb_len, SENSE_BUFFER_LEN);
    assert_eq!(h.mx_sb_len, 32);
    assert_eq!(h.dxfer_len, 0);
    assert_eq!(h.timeout, COMMAND_TIMEOUT_MS);
    assert_eq!(h.timeout, 10_000);
    assert_eq!(h.status, 0);
    assert_eq!(h.host_status, 0);
    assert_eq!(h.driver_status, 0);
}

#[test]
fn command_blocks_encode_the_operations() {
    assert_eq!(eject_request().cmd, vec![0x1b, 0, 0, 0, 2, 0]);
    assert_eq!(retract_request().cmd, vec![0x1b, 0, 0, 0, 3, 0]);
    assert_eq!(ejection_lock_request(true).cmd, vec![0x1e, 0, 0, 0, 1, 0]);
    assert_eq!(ejection_lock_request(false).cmd, vec![0x1e, 0, 0, 0, 0, 0]);
}

#[test]
fn status_query_command_block() {
    assert_eq!(
        status_notification_request_cdb(),
        vec![0x4a, 1, 0, 0, 0x10, 0, 0, 0, 8, 0]
    );
}

#[test]
fn clean_envelope_checks_ok() {
    let h = eject_request();
    assert!(h.check_errors().is_ok());
}

#[test]
fn host_status_failure_is_unknown_with_the_value() {
    let mut h = eject_request();
    h.host_status = 7;
    let e = h.check_errors().unwrap_err();
    assert_eq!(e.kind(), ErrorKind::Unknown);
    assert_eq!(e.os_code(), None);
    assert_eq!(e.message(), "SG_IO failed with host_status = 7");
}

#[test]
fn driver_status_failure_is_unknown_with_the_value() {
    let mut h = eject_request();
    h.driver_status = 12;
    let e = h.check_errors().unwrap_err();
    assert_eq!(e.kind(), ErrorKind::Unknown);
    assert_eq!(e.message(), "SG_IO failed with driver_status = 12");
}

#[test]
fn host_status_takes_precedence_over_driver_status() {
    let mut h = eject_request();
    h.host_status = 1;
    h.driver_status = 2;
    let e = h.check_errors().unwrap_err();
    assert_eq!(e.message(), "SG_IO failed with host_status = 1");
}
