use eject::error::{Error, ErrorKind};

#[test]
fn unknown_error_to_std_io_uncategorized() {
    assert_eq!(
        format!("{:?}", ErrorKind::Unknown.to_io_error_kind()),
        "Uncategorized"
    );
}

#[test]
fn errno_classification() {
    assert_eq!(ErrorKind::from_errno(1), ErrorKind::AccessDenied);
    assert_eq!(ErrorKind::from_errno(13), ErrorKind::AccessDenied);
    assert_eq!(ErrorKind::from_errno(2), ErrorKind::NotFound);
    assert_eq!(ErrorKind::from_errno(36), ErrorKind::InvalidPath);
    assert_eq!(ErrorKind::from_errno(25), ErrorKind::UnsupportedOperation);
    assert_eq!(ErrorKind::from_errno(38), ErrorKind::UnsupportedOperation);
    assert_eq!(ErrorKind::from_errno(95), ErrorKind::UnsupportedOperation);
    assert_eq!(ErrorKind::from_errno(5), ErrorKind::Unknown);
    assert_eq!(ErrorKind::from_errno(0), ErrorKind::Unknown);
}

#[test]
fn errno_error_carries_os_description() {
    let e = Error::from_errno(2);
    assert_eq!(e.os_code(), Some(2));
    assert_eq!(e.kind(), ErrorKind::NotFound);
    assert!(!e.message().is_empty());
    // The message is the OS's own description of the code, not something
    // synthesized from the number.
    assert_eq!(e.message(), &nix::errno::Errno::from_raw(2).to_string());
    assert!(e.message().contains("No such file or directory"));
}

#[test]
fn os_code_zero_means_not_os_originated() {
    let e = Error::new(0, String::from("synthesized"), ErrorKind::Unknown);
    assert_eq!(e.os_code(), None);
    assert_eq!(e.kind(), ErrorKind::Unknown);
}

#[test]
fn windows_code_classification() {
    assert_eq!(ErrorKind::from_windows_code(2), ErrorKind::NotFound);
    assert_eq!(ErrorKind::from_windows_code(3), ErrorKind::NotFound);
    assert_eq!(ErrorKind::from_windows_code(5), ErrorKind::AccessDenied);
    assert_eq!(ErrorKind::from_windows_code(123), ErrorKind::InvalidPath);
    assert_eq!(ErrorKind::from_windows_code(42), ErrorKind::Unknown);
    let e = Error::from_windows_code(5, String::from("Access is denied."));
    assert_eq!(e.os_code(), Some(5));
    assert_eq!(e.kind(), ErrorKind::AccessDenied);
}

#[test]
fn hresult_low_byte_extracts_win32_code() {
    assert_eq!(eject::error::hresult_low_byte(-2147024891_i32), 5);
    assert_eq!(eject::error::hresult_low_byte(0x80070002_u32 as i32), 2);
    assert_eq!(eject::error::hresult_low_byte(0), 0);
}

#[test]
fn kind_to_io_error_kind_table() {
    assert_eq!(
        ErrorKind::AccessDenied.to_io_error_kind(),
        std::io::ErrorKind::PermissionDenied
    );
    assert_eq!(
        ErrorKind::NotFound.to_io_error_kind(),
        std::io::ErrorKind::NotFound
    );
    assert_eq!(
        ErrorKind::InvalidPath.to_io_error_kind(),
        std::io::ErrorKind::InvalidInput
    );
    assert_eq!(
        ErrorKind::UnsupportedOperation.to_io_error_kind(),
        std::io::ErrorKind::Unsupported
    );
}

#[test]
fn os_coded_error_converts_like_the_host_error() {
    let std_err = std::io::Error::from_raw_os_error(2);
    let converted = Error::from_errno(2).into_io_error();
    assert_eq!(std_err.kind(), converted.kind());
    assert_eq!(std_err.raw_os_error(), converted.raw_os_error());
    assert_eq!(std_err.to_string(), converted.to_string());
}

#[test]
fn synthesized_error_converts_by_kind_and_message() {
    let e = Error::new(0, String::from("no drive here"), ErrorKind::NotFound);
    let io_err = e.into_io_error();
    assert_eq!(io_err.kind(), std::io::ErrorKind::NotFound);
    assert_eq!(io_err.raw_os_error(), None);
    assert_eq!(io_err.to_string(), "no drive here");
}

#[test]
fn error_from_host_io_error() {
    let from_os = Error::from_io_error(&std::io::Error::from_raw_os_error(13));
    assert_eq!(from_os.os_code(), Some(13));
    assert_eq!(from_os.kind(), ErrorKind::AccessDenied);
    assert!(!from_os.message().is_empty());

    let synthesized = Error::from_io_error(&std::io::Error::new(
        std::io::ErrorKind::NotFound,
        "gone",
    ));
    assert_eq!(synthesized.os_code(), None);
    assert_eq!(synthesized.kind(), ErrorKind::NotFound);

    let unsupported = Error::from_io_error(&std::io::Error::new(
        std::io::ErrorKind::Unsupported,
        "cannot",
    ));
    assert_eq!(unsupported.kind(), ErrorKind::UnsupportedOperation);

    let other = Error::from_io_error(&std::io::Error::new(
        std::io::ErrorKind::TimedOut,
        "slow",
    ));
    assert_eq!(other.kind(), ErrorKind::Unknown);
}
