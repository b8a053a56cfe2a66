use libharu::guard::{needs_reset, pointer_result};
use libharu::page::{color_space_result, dash_pattern, text_rect_result, COLOR_SPACE_EOF};
use libharu::{ColorSpace, Error};

#[test]
fn text_rect_clipping_is_not_an_error() {
    assert_eq!(text_rect_result(Err(Error::PageInsufficientSpace)), Ok(()));
    assert_eq!(text_rect_result(Ok(())), Ok(()));
    assert_eq!(text_rect_result(Err(Error::InvalidFont)), Err(Error::InvalidFont));
    assert_eq!(text_rect_result(Err(Error::FileIo(3))), Err(Error::FileIo(3)));
}

#[test]
fn color_space_end_marker_is_invalid_page() {
    assert_eq!(color_space_result(0), Ok(ColorSpace::DeviceGray));
    assert_eq!(color_space_result(2), Ok(ColorSpace::DeviceCmyk));
    assert_eq!(color_space_result(10), Ok(ColorSpace::Pattern));
    assert_eq!(color_space_result(COLOR_SPACE_EOF), Err(Error::InvalidPage));
}

#[test]
fn dash_pattern_takes_counted_entries() {
    let ptn = [30, 10, 7, 7, 7, 7, 7, 7];
    assert_eq!(dash_pattern(ptn, 2), vec![30, 10]);
    assert_eq!(dash_pattern(ptn, 0), Vec::<u16>::new());
    assert_eq!(dash_pattern(ptn, 8), ptn.to_vec());
}

#[test]
fn guard_resets_only_after_failure() {
    assert!(!needs_reset(0));
    assert!(needs_reset(0x1016));
}

#[test]
fn null_pointer_is_explained_by_last_error() {
    assert_eq!(pointer_result(Some(5u8), Ok(())), Ok(5));
    assert_eq!(pointer_result(Some(5u8), Err(Error::InvalidPage)), Ok(5));
    assert_eq!(pointer_result::<u8>(None, Ok(())), Err(Error::AllocationFailed));
    assert_eq!(pointer_result::<u8>(None, Err(Error::InvalidPage)), Err(Error::InvalidPage));
}
