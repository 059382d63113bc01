//! Errors returned by this crate.
//!
//! Every failing operation surfaces an [`Error`] carrying the raw OS code
//! (0 when the error did not come from the OS), a human-readable message,
//! and an OS-agnostic [`ErrorKind`] category.

use vstd::prelude::*;

verus! {

/// General categories for OS and library errors.
///
/// Errors that are currently [`Unknown`][Self::Unknown] may move to a finer
/// category later without that being a breaking change; match with a
/// wildcard arm rather than exhaustively.
#[derive(Debug, Clone, Copy, PartialEq, Eq, Structural, Hash, PartialOrd, Ord)]
#[non_exhaustive]
pub enum ErrorKind {
    /// The operation failed due to a permission issue.
    AccessDenied,
    /// The file or path doesn't exist.
    NotFound,
    /// The path contains invalid characters or is improperly formatted.
    InvalidPath,
    /// The device doesn't support performing this operation, for example
    /// because the opened file is not a device of the expected type.
    UnsupportedOperation,
    /// The category of this error could not be determined.
    Unknown,
}

/// Error type for functions in this crate.
#[derive(Debug, Clone)]
pub struct Error {
    /// OS error code, or 0 if the error doesn't come from the OS.
    pub code: i32,
    /// User friendly error message, which comes from the OS in OS errors.
    pub message: String,
    /// OS agnostic error category.
    pub kind: ErrorKind,
}

/// `EPERM`: operation not permitted.
pub const OS_NOT_PERMITTED: i32 = 1;
/// `ENOENT`: no such file or directory.
pub const OS_NOT_FOUND: i32 = 2;
/// `EACCES`: permission denied.
pub const OS_PERMISSION_DENIED: i32 = 13;
/// `EINVAL`: invalid argument.
pub const OS_INVALID_ARGUMENT: i32 = 22;
/// `ENOTTY`: inappropriate ioctl for device.
pub const OS_INAPPROPRIATE_IOCTL: i32 = 25;
/// `ENAMETOOLONG`: file name too long.
pub const OS_NAME_TOO_LONG: i32 = 36;
/// `ENOSYS`: function not implemented.
pub const OS_NOT_IMPLEMENTED: i32 = 38;
/// `EOPNOTSUPP`: operation not supported.
pub const OS_OPERATION_NOT_SUPPORTED: i32 = 95;

/// The portable category for a raw Unix `errno` value.
pub open spec fn kind_of_errno(code: i32) -> ErrorKind {
    if code == OS_NOT_IMPLEMENTED || code == OS_OPERATION_NOT_SUPPORTED
        || code == OS_INAPPROPRIATE_IOCTL {
        ErrorKind::UnsupportedOperation
    } else if code == OS_NOT_PERMITTED || code == OS_PERMISSION_DENIED {
        ErrorKind::AccessDenied
    } else if code == OS_NOT_FOUND {
        ErrorKind::NotFound
    } else if code == OS_NAME_TOO_LONG {
        ErrorKind::InvalidPath
    } else {
        ErrorKind::Unknown
    }
}

impl ErrorKind {
    /// Classifies a raw Unix `errno` value into a portable category.
    pub fn from_errno(code: i32) -> (kind: ErrorKind)
        ensures
            kind == kind_of_errno(code),
    {
        if code == OS_NOT_IMPLEMENTED || code == OS_OPERATION_NOT_SUPPORTED
            || code == OS_INAPPROPRIATE_IOCTL {
            ErrorKind::UnsupportedOperation
        } else if code == OS_NOT_PERMITTED || code == OS_PERMISSION_DENIED {
            ErrorKind::AccessDenied
        } else if code == OS_NOT_FOUND {
            ErrorKind::NotFound
        } else if code == OS_NAME_TOO_LONG {
            ErrorKind::InvalidPath
        } else {
            ErrorKind::Unknown
        }
    }
}

/// `ERROR_FILE_NOT_FOUND`: the system cannot find the file specified.
pub const WIN_FILE_NOT_FOUND: u32 = 2;
/// `ERROR_PATH_NOT_FOUND`: the system cannot find the path specified.
pub const WIN_PATH_NOT_FOUND: u32 = 3;
/// `ERROR_ACCESS_DENIED`: access is denied.
pub const WIN_ACCESS_DENIED: u32 = 5;
/// `ERROR_INVALID_NAME`: the filename, directory name, or volume label
/// syntax is incorrect.
pub const WIN_INVALID_NAME: u32 = 123;

/// The portable category for a raw Win32 error code.
pub open spec fn kind_of_windows_code(code: u32) -> ErrorKind {
    if code == WIN_FILE_NOT_FOUND || code == WIN_PATH_NOT_FOUND {
        ErrorKind::NotFound
    } else if code == WIN_ACCESS_DENIED {
        ErrorKind::AccessDenied
    } else if code == WIN_INVALID_NAME {
        ErrorKind::InvalidPath
    } else {
        ErrorKind::Unknown
    }
}

impl ErrorKind {
    /// Classifies a raw Win32 error code into a portable category.
    pub fn from_windows_code(code: u32) -> (kind: ErrorKind)
        ensures
            kind == kind_of_windows_code(code),
    {
        if code == WIN_FILE_NOT_FOUND || code == WIN_PATH_NOT_FOUND {
            ErrorKind::NotFound
        } else if code == WIN_ACCESS_DENIED {
            ErrorKind::AccessDenied
        } else if code == WIN_INVALID_NAME {
            ErrorKind::InvalidPath
        } else {
            ErrorKind::Unknown
        }
    }
}

impl Error {
    /// Builds an error from a raw Win32 error code and the message the
    /// host rendered for it.
    pub fn from_windows_code(code: u32, message: String) -> (e: Error)
        ensures
            e.code == code as i32,
            e.kind == kind_of_windows_code(code),
            e.message == message,
    {
        Error { code: code as i32, message, kind: ErrorKind::from_windows_code(code) }
    }
}

/// The Win32 error code packed into the low byte of a host result code.
pub fn hresult_low_byte(hresult: i32) -> (code: i32)
    ensures
        code == hresult & 0xFF,
        0 <= code <= 0xFF,
{
    let code = hresult & 0xFF;
    proof {
        assert(0 <= hresult & 0xFF <= 0xFF) by (bit_vector);
    }
    code
}

/// Relies on `nix::errno::Errno`: `from_raw` selects the errno constant for
/// the code and the `Display` impl renders `"{:?}: {}"`, the constant's name
/// followed by its description, which is never empty.
#[verifier::external_body]
fn errno_message(code: i32) -> (message: String)
    ensures
        message@.len() > 0,
{
    nix::errno::Errno::from_raw(code).to_string()
}

impl Error {
    /// Builds an error from its parts.
    pub fn new(code: i32, message: String, kind: ErrorKind) -> (e: Error)
        ensures
            e.code == code,
            e.message == message,
            e.kind == kind,
    {
        Error { code, message, kind }
    }

    /// Builds an error from a raw Unix `errno` value, classifying it and
    /// attaching the OS's description of the code.
    pub fn from_errno(code: i32) -> (e: Error)
        ensures
            e.code == code,
            e.kind == kind_of_errno(code),
            e.message@.len() > 0,
    {
        Error { code, message: errno_message(code), kind: ErrorKind::from_errno(code) }
    }

    /// Returns the OS specific error code or `None` if the error doesn't
    /// come directly from the OS.
    pub fn os_code(&self) -> (code: Option<i32>)
        ensures
            code == if self.code == 0 { Option::<i32>::None } else { Option::Some(self.code) },
    {
        if self.code == 0 {
            None
        } else {
            Some(self.code)
        }
    }

    /// Returns an OS agnostic category for this error.
    pub fn kind(&self) -> (kind: ErrorKind)
        ensures
            kind == self.kind,
    {
        self.kind
    }

    /// Returns the human-readable message carried by this error.
    pub fn message(&self) -> (message: &String)
        ensures
            message == &self.message,
    {
        &self.message
    }
}

#[verifier::external_type_specification]
#[verifier::external_body]
pub struct ExIoError(std::io::Error);

#[verifier::external_type_specification]
#[verifier::external_body]
pub struct ExIoErrorKind(std::io::ErrorKind);

pub assume_specification[ std::io::Error::from_raw_os_error ](code: i32) -> std::io::Error;

pub assume_specification[ std::io::Error::kind ](e: &std::io::Error) -> std::io::ErrorKind;

pub assume_specification[ std::io::Error::raw_os_error ](e: &std::io::Error) -> Option<i32>;

/// Relies on `std::io::Error::new` to wrap a category and message into a
/// host I/O error.
#[verifier::external_body]
fn io_error_with_kind(kind: std::io::ErrorKind, message: String) -> std::io::Error {
    std::io::Error::new(kind, message)
}

/// Relies on `std::io::ErrorKind::PermissionDenied`, the host category for
/// a permission failure.
#[verifier::external_body]
fn io_kind_permission_denied() -> std::io::ErrorKind {
    std::io::ErrorKind::PermissionDenied
}

/// Relies on `std::io::ErrorKind::NotFound`, the host category for a
/// missing file or path.
#[verifier::external_body]
fn io_kind_not_found() -> std::io::ErrorKind {
    std::io::ErrorKind::NotFound
}

/// Relies on `std::io::ErrorKind::InvalidInput`, the host category for a
/// malformed argument.
#[verifier::external_body]
fn io_kind_invalid_input() -> std::io::ErrorKind {
    std::io::ErrorKind::InvalidInput
}

/// Relies on `std::io::ErrorKind::Unsupported`, the host category for an
/// unsupported operation.
#[verifier::external_body]
fn io_kind_unsupported() -> std::io::ErrorKind {
    std::io::ErrorKind::Unsupported
}

/// Relies on `std::io::Error::kind` to tell the host categories this crate
/// distinguishes apart: 0 for a missing file, 1 for a permission failure,
/// 2 for an unsupported operation, 3 for every other category.
#[verifier::external_body]
fn io_error_kind_tag(e: &std::io::Error) -> (tag: u8)
    ensures
        tag < 4,
{
    match e.kind() {
        std::io::ErrorKind::NotFound => 0,
        std::io::ErrorKind::PermissionDenied => 1,
        std::io::ErrorKind::Unsupported => 2,
        _ => 3,
    }
}

/// Relies on `std::io::Error`'s `Display` impl for the OS-sourced message.
#[verifier::external_body]
fn io_error_text(e: &std::io::Error) -> String {
    e.to_string()
}

/// A raw OS code no platform defines; the host maps it to its
/// "uncategorized" error category.
pub const UNRECOGNIZED_OS_CODE: i32 = 498498498;

/// The portable category for one of the tags `io_error_kind_tag` hands
/// out.
pub open spec fn kind_of_io_tag(tag: u8) -> ErrorKind {
    if tag == 0 {
        ErrorKind::NotFound
    } else if tag == 1 {
        ErrorKind::AccessDenied
    } else if tag == 2 {
        ErrorKind::UnsupportedOperation
    } else {
        ErrorKind::Unknown
    }
}

fn kind_from_io_tag(tag: u8) -> (kind: ErrorKind)
    ensures
        kind == kind_of_io_tag(tag),
{
    if tag == 0 {
        ErrorKind::NotFound
    } else if tag == 1 {
        ErrorKind::AccessDenied
    } else if tag == 2 {
        ErrorKind::UnsupportedOperation
    } else {
        ErrorKind::Unknown
    }
}

impl ErrorKind {
    /// The host I/O error category this portable category maps to:
    /// `AccessDenied` to the host's permission denial, `NotFound` to its
    /// missing file, `InvalidPath` to its invalid input, and
    /// `UnsupportedOperation` to its unsupported operation. `Unknown` maps
    /// to whatever category the host gives an unrecognized raw OS code:
    /// its "uncategorized" bucket.
    pub fn to_io_error_kind(self) -> std::io::ErrorKind {
        match self {
            ErrorKind::AccessDenied => io_kind_permission_denied(),
            ErrorKind::NotFound => io_kind_not_found(),
            ErrorKind::InvalidPath => io_kind_invalid_input(),
            ErrorKind::UnsupportedOperation => io_kind_unsupported(),
            ErrorKind::Unknown => std::io::Error::from_raw_os_error(UNRECOGNIZED_OS_CODE).kind(),
        }
    }
}

impl Error {
    /// Builds an error from a host I/O error: the OS code when it carries
    /// one (0 otherwise), its rendered message, and the portable category
    /// of its kind. Whatever the host error holds, the category comes out
    /// of the fixed host-to-portable table, which never produces
    /// [`ErrorKind::InvalidPath`].
    pub fn from_io_error(e: &std::io::Error) -> (r: Error)
        ensures
            r.kind == ErrorKind::NotFound || r.kind == ErrorKind::AccessDenied || r.kind
                == ErrorKind::UnsupportedOperation || r.kind == ErrorKind::Unknown,
    {
        let code = match e.raw_os_error() {
            Some(c) => c,
            None => 0,
        };
        let tag = io_error_kind_tag(e);
        let kind = kind_from_io_tag(tag);
        Error { code, message: io_error_text(e), kind }
    }

    /// Converts into a host I/O error: an error that carries an OS code is
    /// wrapped from the code itself, so the host renders its own message
    /// for it; an error without one is wrapped from its mapped category
    /// and carried message.
    pub fn into_io_error(self) -> std::io::Error {
        if self.code == 0 {
            io_error_with_kind(self.kind.to_io_error_kind(), self.message)
        } else {
            std::io::Error::from_raw_os_error(self.code)
        }
    }
}

} // verus!
