//! Decisions for driving a single device: how to open it, how a tray
//! command falls back from the generic backend to the SCSI pass-through
//! backend, how to toggle the tray, and how an ejection lock is released.

pub mod commands;
pub mod lock;
pub mod open;
pub mod status;
pub mod toggle;

pub use self::status::DriveStatus;
