//! The SCSI pass-through backend's command blocks and envelopes.
//!
//! Each tray operation is a fixed 6-byte command descriptor block (CDB)
//! wrapped in a generic pass-through envelope; after the bus driver has
//! handled the request, two status sub-fields of the envelope tell whether
//! it succeeded. The envelope here models the kernel's generic-SCSI header
//! field for field, except for the raw buffer pointers, which belong to the
//! caller that issues the request.

use vstd::prelude::*;

use crate::error::{Error, ErrorKind};
use crate::text::{decimal_str, decimal_string};

verus! {

/// START/STOP UNIT, the command that loads or ejects the medium.
pub const START_STOP: u8 = 0x1b;

/// PREVENT/ALLOW MEDIUM REMOVAL, the command that locks or unlocks ejection.
pub const ALLOW_MEDIUM_REMOVAL: u8 = 0x1e;

/// GET EVENT/STATUS NOTIFICATION, the command behind the pass-through
/// status query.
pub const GET_EVENT_STATUS_NOTIFICATION: u8 = 0x4a;

/// The interface id the generic-SCSI header must carry: ASCII `'S'`.
pub const SG_INTERFACE_ID_ORIG: i32 = 83;

/// How many bytes of diagnostic sense data a request reserves room for.
pub const SENSE_BUFFER_LEN: u8 = 32;

/// How long the bus driver may work on one command, in milliseconds.
pub const COMMAND_TIMEOUT_MS: u32 = 10 * 1000;

/// How many response bytes the pass-through status query requests.
pub const STATUS_DATA_LEN: u8 = 8;

/// Data transfer direction of a pass-through request.
#[derive(Debug, Clone, Copy, PartialEq, Eq, Structural)]
pub enum DxferDirection {
    /// No data transfer, e.g. a SCSI Test Unit Ready command.
    NoTransfer,
    /// Data flows to the device, e.g. a SCSI WRITE command.
    ToDev,
    /// Data flows from the device, e.g. a SCSI READ command.
    FromDev,
    /// Both directions, with the user buffer copied into the kernel buffers
    /// before the transfer.
    ToFromDev,
    /// Unknown data direction.
    Unknown,
}

/// The integer each direction encodes to in the generic-SCSI header.
pub open spec fn direction_code(d: DxferDirection) -> int {
    match d {
        DxferDirection::NoTransfer => -1,
        DxferDirection::ToDev => -2,
        DxferDirection::FromDev => -3,
        DxferDirection::ToFromDev => -4,
        DxferDirection::Unknown => -5,
    }
}

impl DxferDirection {
    /// The integer encoding of this direction in the generic-SCSI header.
    pub fn code(&self) -> (c: i32)
        ensures
            c == direction_code(*self),
    {
        match self {
            DxferDirection::NoTransfer => -1,
            DxferDirection::ToDev => -2,
            DxferDirection::FromDev => -3,
            DxferDirection::ToFromDev => -4,
            DxferDirection::Unknown => -5,
        }
    }
}

/// The pass-through envelope for one SCSI command, mirroring the kernel's
/// generic-SCSI header. `cmd` holds the command descriptor block; the
/// fields from `status` on are filled in from the header after the request
/// has been issued.
pub struct SgIoHdr {
    /// `'S'` for SCSI generic (required).
    pub interface_id: i32,
    /// Data transfer direction.
    pub dxfer_direction: DxferDirection,
    /// Max length of sense data to write back.
    pub mx_sb_len: u8,
    /// Byte count of data transfer.
    pub dxfer_len: u32,
    /// The command to perform.
    pub cmd: Vec<u8>,
    /// Timeout in milliseconds.
    pub timeout: u32,
    /// 0 selects the default behaviour.
    pub flags: u32,
    /// Unused internally.
    pub pack_id: i32,
    /// SCSI status.
    pub status: u8,
    /// Shifted, masked SCSI status.
    pub masked_status: u8,
    /// Messaging level data (optional).
    pub msg_status: u8,
    /// Byte count of sense data actually written.
    pub sb_len_wr: u8,
    /// Errors from the host adapter.
    pub host_status: u16,
    /// Errors from the software driver.
    pub driver_status: u16,
    /// `dxfer_len` minus the amount actually transferred.
    pub resid: i32,
    /// Time taken by the command, in milliseconds.
    pub duration: u32,
    /// Auxiliary information.
    pub info: u32,
}

/// Holds when `h` is a freshly built no-transfer command envelope carrying
/// the command block `cdb`: sense space and the fixed timeout are set and
/// every reported-status field still reads zero.
pub open spec fn is_command_request(h: SgIoHdr, cdb: Seq<u8>) -> bool {
    &&& h.interface_id == SG_INTERFACE_ID_ORIG
    &&& h.dxfer_direction is NoTransfer
    &&& h.mx_sb_len == SENSE_BUFFER_LEN
    &&& h.dxfer_len == 0
    &&& h.cmd@ == cdb
    &&& h.timeout == COMMAND_TIMEOUT_MS
    &&& h.flags == 0
    &&& h.pack_id == 0
    &&& h.status == 0
    &&& h.masked_status == 0
    &&& h.msg_status == 0
    &&& h.sb_len_wr == 0
    &&& h.host_status == 0
    &&& h.driver_status == 0
    &&& h.resid == 0
    &&& h.duration == 0
    &&& h.info == 0
}

/// The 6-byte START/STOP UNIT command block with the given parameter byte.
pub open spec fn start_stop_cdb(param: u8) -> Seq<u8> {
    seq![START_STOP, 0u8, 0u8, 0u8, param, 0u8]
}

/// The 6-byte PREVENT/ALLOW MEDIUM REMOVAL command block; the parameter
/// byte is 1 to lock ejection and 0 to allow it.
pub open spec fn medium_removal_cdb(locked: bool) -> Seq<u8> {
    seq![ALLOW_MEDIUM_REMOVAL, 0u8, 0u8, 0u8, (if locked { 1u8 } else { 0u8 }), 0u8]
}

/// The 10-byte GET EVENT/STATUS NOTIFICATION command block requesting the
/// media event class in polled mode, with the response length in its last
/// two payload bytes.
pub open spec fn status_notification_cdb() -> Seq<u8> {
    seq![
        GET_EVENT_STATUS_NOTIFICATION,
        1u8,
        0u8,
        0u8,
        0x10u8,
        0u8,
        0u8,
        0u8,
        STATUS_DATA_LEN,
        0u8,
    ]
}

/// The message carried by the error for a nonzero host-adapter status.
pub open spec fn host_status_message(code: int) -> Seq<char> {
    "SG_IO failed with host_status = "@ + decimal_str(code)
}

/// The message carried by the error for a nonzero driver status.
pub open spec fn driver_status_message(code: int) -> Seq<char> {
    "SG_IO failed with driver_status = "@ + decimal_str(code)
}

impl Default for SgIoHdr {
    /// The all-zero envelope: no command, no buffers, no reported status.
    fn default() -> (h: SgIoHdr)
        ensures
            h.interface_id == SG_INTERFACE_ID_ORIG,
            h.dxfer_direction is NoTransfer,
            h.mx_sb_len == 0,
            h.dxfer_len == 0,
            h.cmd@ == Seq::<u8>::empty(),
            h.timeout == 0,
            h.flags == 0,
            h.pack_id == 0,
            h.status == 0,
            h.masked_status == 0,
            h.msg_status == 0,
            h.sb_len_wr == 0,
            h.host_status == 0,
            h.driver_status == 0,
            h.resid == 0,
            h.duration == 0,
            h.info == 0,
    {
        SgIoHdr {
            interface_id: SG_INTERFACE_ID_ORIG,
            dxfer_direction: DxferDirection::NoTransfer,
            mx_sb_len: 0,
            dxfer_len: 0,
            cmd: Vec::new(),
            timeout: 0,
            flags: 0,
            pack_id: 0,
            status: 0,
            masked_status: 0,
            msg_status: 0,
            sb_len_wr: 0,
            host_status: 0,
            driver_status: 0,
            resid: 0,
            duration: 0,
            info: 0,
        }
    }
}

impl SgIoHdr {
    /// Builds the envelope for one no-transfer command.
    pub fn command(cdb: Vec<u8>) -> (h: SgIoHdr)
        ensures
            is_command_request(h, cdb@),
    {
        let mut h = SgIoHdr::default();
        h.dxfer_direction = DxferDirection::NoTransfer;
        h.mx_sb_len = SENSE_BUFFER_LEN;
        h.cmd = cdb;
        h.timeout = COMMAND_TIMEOUT_MS;
        h
    }

    /// After the request has been issued and the reported-status fields
    /// copied back, checks the two failure sub-fields: both must be zero
    /// for success, and whichever is nonzero is embedded in the message of
    /// an [`ErrorKind::Unknown`] error, the host-adapter status first.
    pub fn check_errors(&self) -> (r: Result<(), Error>)
        ensures
            self.host_status == 0 && self.driver_status == 0 ==> r == Result::<(), Error>::Ok(()),
            self.host_status != 0 ==> (r matches Err(e)
                && e.code == 0
                && e.kind == ErrorKind::Unknown
                && e.message@ == host_status_message(self.host_status as int)),
            self.host_status == 0 && self.driver_status != 0 ==> (r matches Err(e)
                && e.code == 0
                && e.kind == ErrorKind::Unknown
                && e.message@ == driver_status_message(self.driver_status as int)),
    {
        if self.host_status != 0 {
            let mut message = String::from_str("SG_IO failed with host_status = ");
            let rendered = decimal_string(self.host_status as u64);
            message.append(rendered.as_str());
            Err(Error::new(0, message, ErrorKind::Unknown))
        } else if self.driver_status != 0 {
            let mut message = String::from_str("SG_IO failed with driver_status = ");
            let rendered = decimal_string(self.driver_status as u64);
            message.append(rendered.as_str());
            Err(Error::new(0, message, ErrorKind::Unknown))
        } else {
            Ok(())
        }
    }
}

/// The envelope for the START/STOP UNIT command that ejects the medium
/// (load/eject bit set, start bit clear).
pub fn eject_request() -> (h: SgIoHdr)
    ensures
        is_command_request(h, start_stop_cdb(2)),
{
    let mut cdb: Vec<u8> = Vec::new();
    cdb.push(START_STOP);
    cdb.push(0);
    cdb.push(0);
    cdb.push(0);
    cdb.push(2);
    cdb.push(0);
    proof {
        assert(cdb@ =~= start_stop_cdb(2));
    }
    SgIoHdr::command(cdb)
}

/// The envelope for the START/STOP UNIT command that retracts the tray
/// (load/eject and start bits both set).
pub fn retract_request() -> (h: SgIoHdr)
    ensures
        is_command_request(h, start_stop_cdb(3)),
{
    let mut cdb: Vec<u8> = Vec::new();
    cdb.push(START_STOP);
    cdb.push(0);
    cdb.push(0);
    cdb.push(0);
    cdb.push(3);
    cdb.push(0);
    proof {
        assert(cdb@ =~= start_stop_cdb(3));
    }
    SgIoHdr::command(cdb)
}

/// The envelope for the PREVENT/ALLOW MEDIUM REMOVAL command with the lock
/// boolean as its parameter byte.
pub fn ejection_lock_request(locked: bool) -> (h: SgIoHdr)
    ensures
        is_command_request(h, medium_removal_cdb(locked)),
{
    let mut cdb: Vec<u8> = Vec::new();
    cdb.push(ALLOW_MEDIUM_REMOVAL);
    cdb.push(0);
    cdb.push(0);
    cdb.push(0);
    cdb.push(if locked { 1 } else { 0 });
    cdb.push(0);
    proof {
        assert(cdb@ =~= medium_removal_cdb(locked));
    }
    SgIoHdr::command(cdb)
}

/// The command block for the pass-through status query.
pub fn status_notification_request_cdb() -> (cdb: Vec<u8>)
    ensures
        cdb@ == status_notification_cdb(),
{
    let mut cdb: Vec<u8> = Vec::new();
    cdb.push(GET_EVENT_STATUS_NOTIFICATION);
    cdb.push(1);
    cdb.push(0);
    cdb.push(0);
    cdb.push(0x10);
    cdb.push(0);
    cdb.push(0);
    cdb.push(0);
    cdb.push(STATUS_DATA_LEN);
    cdb.push(0);
    proof {
        assert(cdb@ =~= status_notification_cdb());
    }
    cdb
}

} // verus!
