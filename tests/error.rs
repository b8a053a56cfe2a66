use libharu::error::{from, status_is_known, FILE_IO_ERROR, STREAM_EOF, SUCCESS};
use libharu::Error;

#[test]
fn error_translation() {
    assert!(from(0, 0).is_ok());
    match from(0x1075, 0) {
        Err(Error::InvalidFont) => (),
        _ => panic!("Invalid error"),
    }
    match from(0x1060, 9) {
        Err(Error::TtfMissingTable(9)) => (),
        _ => panic!("Invalid error"),
    }
}

#[test]
fn success_ignores_detail() {
    assert_eq!(from(SUCCESS, 0), Ok(()));
    assert_eq!(from(SUCCESS, 12345), Ok(()));
    assert_eq!(from(SUCCESS, u64::MAX), Ok(()));
}

#[test]
fn statuses_with_payload_keep_detail() {
    assert_eq!(from(0x100f, 3), Err(Error::JwwCodeNumberLimitExceeded(3)));
    assert_eq!(from(FILE_IO_ERROR, 7), Err(Error::FileIo(7)));
    assert_eq!(from(0x1017, 2), Err(Error::FileOpen(2)));
    assert_eq!(from(0x1060, 9), Err(Error::TtfMissingTable(9)));
    assert_eq!(from(0x1066, 4), Err(Error::Zlib(4)));
    assert_eq!(from(0x1071, 5), Err(Error::PageNumberStyleOutOfRange(5)));
    assert_eq!(from(0x1074, 6), Err(Error::PageInvalidDirection(6)));
}

#[test]
fn png_status_branches_on_detail() {
    assert_eq!(from(0x1043, 0x1005), Err(Error::CannotGetPalette));
    assert_eq!(from(0x1043, 3), Err(Error::Libpng(3)));
    assert_eq!(from(0x1043, 0), Err(Error::Libpng(0)));
}

#[test]
fn statuses_without_payload_ignore_detail() {
    assert_eq!(from(0x1075, 0), Err(Error::InvalidFont));
    assert_eq!(from(0x1075, 99), Err(Error::InvalidFont));
    assert_eq!(from(0x1001, 1), Err(Error::ArrayCount));
    assert_eq!(from(0x1015, 0), Err(Error::AllocationFailed));
    assert_eq!(from(0x1076, 0), Err(Error::PageInsufficientSpace));
    assert_eq!(from(STREAM_EOF, 0), Err(Error::StreamEof));
    assert_eq!(from(0x1085, 0), Err(Error::IccComponentCountInvalid));
}

#[test]
fn unknown_statuses_are_not_known() {
    assert!(status_is_known(SUCCESS));
    assert!(status_is_known(0x1001));
    assert!(status_is_known(0x1085));
    assert!(!status_is_known(0x1005));
    assert!(!status_is_known(0x1006));
    assert!(!status_is_known(0x1086));
    assert!(!status_is_known(1));
    assert!(!status_is_known(u64::MAX));
}

#[test]
fn every_table_status_is_known_and_an_error() {
    let mut known: u32 = 0;
    for status in 0x1000u64..0x1100 {
        if status_is_known(status) {
            known += 1;
            assert!(from(status, 0).is_err());
        }
    }
    assert_eq!(known, 106);
}
