//! The reported position and load state of a drive.

use vstd::prelude::*;

use crate::error::{Error, ErrorKind};
use crate::text::{decimal_string, signed_decimal_str, signed_decimal_string};

verus! {

/// Position of the drive's tray and whether it has data loaded.
#[derive(Debug, Clone, Copy, PartialEq, Eq, Structural, Hash, PartialOrd, Ord)]
pub enum DriveStatus {
    /// No medium is inserted. If there's a tray, it's closed.
    Empty,
    /// The drive has a tray or other similar mechanism and it's open.
    TrayOpen,
    /// The drive is not available yet. With CD drives this happens for a few
    /// seconds after the tray is closed. Platforms whose status query cannot
    /// observe this state report it as [`Empty`][Self::Empty].
    NotReady,
    /// The drive has data loaded. If it reads from removable media, one is
    /// inserted.
    Loaded,
}

/// The message carried by the error for a raw status code outside the range
/// the drive-status query defines.
pub open spec fn unknown_status_message(code: int) -> Seq<char> {
    "CDROM_DRIVE_STATUS returned unknown status: "@ + signed_decimal_str(code)
}

/// The status a media-event byte of the pass-through status query stands
/// for: 0 reports an empty drive, 2 a loaded one, and anything else an open
/// tray. This query cannot observe [`DriveStatus::NotReady`].
pub open spec fn status_of_media_event(event_byte: u8) -> DriveStatus {
    if event_byte == 0 {
        DriveStatus::Empty
    } else if event_byte == 2 {
        DriveStatus::Loaded
    } else {
        DriveStatus::TrayOpen
    }
}

impl DriveStatus {
    /// Returns whether this status implies that the tray is open.
    pub fn tray_open(&self) -> (open: bool)
        ensures
            open == (self is TrayOpen),
    {
        match self {
            DriveStatus::Empty | DriveStatus::Loaded | DriveStatus::NotReady => false,
            DriveStatus::TrayOpen => true,
        }
    }

    /// Maps the raw code reported by the generic drive-status query. The
    /// mapping is total: codes 1 through 4 name the four states, 0 means the
    /// drive cannot report status at all, and every other code is an unknown
    /// status whose raw value the error message carries.
    pub fn from_raw_code(code: i32) -> (r: Result<DriveStatus, Error>)
        ensures
            code == 1 ==> r == Result::<DriveStatus, Error>::Ok(DriveStatus::Empty),
            code == 2 ==> r == Result::<DriveStatus, Error>::Ok(DriveStatus::TrayOpen),
            code == 3 ==> r == Result::<DriveStatus, Error>::Ok(DriveStatus::NotReady),
            code == 4 ==> r == Result::<DriveStatus, Error>::Ok(DriveStatus::Loaded),
            code == 0 ==> (r matches Err(e)
                && e.code == 0
                && e.kind == ErrorKind::UnsupportedOperation
                && e.message@ == "cannot get drive status"@),
            !(0 <= code <= 4) ==> (r matches Err(e)
                && e.code == 0
                && e.kind == ErrorKind::Unknown
                && e.message@ == unknown_status_message(code as int)),
    {
        if code == 1 {
            Ok(DriveStatus::Empty)
        } else if code == 2 {
            Ok(DriveStatus::TrayOpen)
        } else if code == 3 {
            Ok(DriveStatus::NotReady)
        } else if code == 4 {
            Ok(DriveStatus::Loaded)
        } else if code == 0 {
            Err(Error::new(
                0,
                String::from_str("cannot get drive status"),
                ErrorKind::UnsupportedOperation,
            ))
        } else {
            let mut message = String::from_str("CDROM_DRIVE_STATUS returned unknown status: ");
            let rendered = signed_decimal_string(code as i64);
            message.append(rendered.as_str());
            Err(Error::new(0, message, ErrorKind::Unknown))
        }
    }

    /// Maps the media-event byte of the pass-through status query.
    pub fn from_media_event(event_byte: u8) -> (s: DriveStatus)
        ensures
            s == status_of_media_event(event_byte),
    {
        if event_byte == 0 {
            DriveStatus::Empty
        } else if event_byte == 2 {
            DriveStatus::Loaded
        } else {
            DriveStatus::TrayOpen
        }
    }
}

} // verus!
