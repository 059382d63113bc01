use eject::discovery::probe::{indexed_drive_path, probe_scan};
use eject::discovery::scan::{is_cd_device_path, scan_paths, DriveScan};
use eject::discovery::{cdrom_candidate_paths, keep_scanning, no_drive_error, scan_verdict};
use eject::error::{Error, ErrorKind};
use eject::text::{utf16_null_terminated, StrContainsNullErr};

fn missing() -> Error {
    Error::new(2, String::from("No such file or directory"), ErrorKind::NotFound)
}

fn denied() -> Error {
    Error::new(13, String::from("Permission denied"), ErrorKind::AccessDenied)
}

#[test]
fn candidate_paths_in_order() {
    assert_eq!(cdrom_candidate_paths(), vec!["/dev/cdrom", "/dev/sr0"]);
}

#[test]
fn scan_continues_only_past_missing_devices() {
    assert!(keep_scanning(&missing()));
    assert!(!keep_scanning(&denied()));
}

#[test]
fn exhausted_scan_fails_not_found_with_message() {
    let e = no_drive_error();
    assert_eq!(e.kind(), ErrorKind::NotFound);
    assert_eq!(e.os_code(), None);
    assert_eq!(e.message(), "No CD drive found");
    assert!(!e.message().is_empty());

    // An empty candidate list and an all-missing one both stand on the
    // fixed error, not on any candidate's own.
    assert_eq!(scan_verdict(&vec![]), None);
    assert_eq!(scan_verdict(&vec![missing(), missing()]), None);
}

#[test]
fn first_other_error_ends_the_scan() {
    assert_eq!(scan_verdict(&vec![missing(), denied(), missing()]), Some(1));
    assert_eq!(scan_verdict(&vec![denied()]), Some(0));
}

#[test]
fn indexed_probe_yields_prefix_in_order() {
    // Drives at indices 0 and 1 but not 2: exactly two paths, ascending,
    // and three probes — none past the first absence.
    let (found, probes) = probe_scan(&vec![true, true, false]);
    assert_eq!(found, vec![0, 1]);
    assert_eq!(probes, 3);

    let (found, probes) = probe_scan(&vec![false, true]);
    assert_eq!(found, Vec::<u64>::new());
    assert_eq!(probes, 1);

    let (found, probes) = probe_scan(&vec![]);
    assert_eq!(found, Vec::<u64>::new());
    assert_eq!(probes, 0);

    let (found, probes) = probe_scan(&vec![true, true]);
    assert_eq!(found, vec![0, 1]);
    assert_eq!(probes, 2);
}

#[test]
fn indexed_drive_paths() {
    assert_eq!(indexed_drive_path(0), "CdRom0");
    assert_eq!(indexed_drive_path(7), "CdRom7");
    assert_eq!(indexed_drive_path(12), "CdRom12");
    assert_eq!(indexed_drive_path(105), "CdRom105");
}

#[test]
fn cd_device_path_shape() {
    assert!(is_cd_device_path(&b"/dev/sr0".to_vec()));
    assert!(is_cd_device_path(&b"/dev/sr12".to_vec()));
    assert!(is_cd_device_path(&b"/dev/sr".to_vec()));
    assert!(!is_cd_device_path(&b"/dev/sda".to_vec()));
    assert!(!is_cd_device_path(&b"/dev/sr1a".to_vec()));
    assert!(!is_cd_device_path(&b"/dev".to_vec()));
    assert!(!is_cd_device_path(&b"".to_vec()));
    assert!(!is_cd_device_path(&b"dev/sr0".to_vec()));
}

#[test]
fn directory_scan_deduplicates_canonical_paths() {
    // Two entries canonicalize to /dev/sr0: it is yielded once.
    let entries = vec![
        b"/dev/sr0".to_vec(),
        b"/dev/sr0".to_vec(),
        b"/dev/sr1".to_vec(),
        b"/dev/sda".to_vec(),
        b"/dev/sr1".to_vec(),
    ];
    let yielded = scan_paths(&entries);
    assert_eq!(yielded, vec![b"/dev/sr0".to_vec(), b"/dev/sr1".to_vec()]);
}

#[test]
fn drive_scan_yields_each_path_once() {
    let mut scan = DriveScan::new();
    let sr0 = b"/dev/sr0".to_vec();
    let sda = b"/dev/sda".to_vec();
    assert!(scan.offer(&sr0));
    assert!(!scan.offer(&sr0));
    assert!(!scan.offer(&sda));
    assert!(scan.offer(&b"/dev/sr1".to_vec()));
    assert!(!scan.offer(&sr0));
}

#[test]
fn wide_path_encoding() {
    assert_eq!(utf16_null_terminated("D:").unwrap(), vec![0x44, 0x3a, 0]);
    assert_eq!(
        utf16_null_terminated("CdRom0").unwrap(),
        "CdRom0".encode_utf16().chain([0]).collect::<Vec<u16>>()
    );
    // A character outside the basic plane becomes a surrogate pair.
    let musical = utf16_null_terminated("\u{1D11E}").unwrap();
    assert_eq!(musical, vec![0xD834, 0xDD1E, 0]);
    assert_eq!(
        utf16_null_terminated("bad\0path"),
        Err(StrContainsNullErr)
    );
}
