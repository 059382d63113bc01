//! Control logic for the tray of optical (CD/DVD) drives.
//!
//! The library holds the platform-independent brain of a tray-control stack:
//! classifying OS error codes into a small portable taxonomy, mapping raw
//! drive-status codes, building the SCSI command blocks and pass-through
//! envelopes that drive the fallback backend, and the decision rules for
//! opening a device, falling back between command backends, toggling the
//! tray, releasing an ejection lock, and discovering drives.  Every decision
//! is a verified function from plain values to plain values; the thin layer
//! that owns the OS handle and issues the actual `ioctl` calls sits outside
//! and consults these functions step by step.

pub mod device;
pub mod discovery;
pub mod error;
pub mod scsi;
pub mod text;
