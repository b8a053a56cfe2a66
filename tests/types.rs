use libharu::{
    color_space_from_int, line_cap_as_int, line_cap_from_int, line_join_as_int,
    line_join_from_int, page_layout_as_int, page_layout_from_int, text_alignment_as_int,
    ColorSpace, LineCap, LineJoin, PageLayout, TextAlignment,
};

#[test]
fn page_layout_codes() {
    assert_eq!(page_layout_as_int(PageLayout::Default), 6);
    assert_eq!(page_layout_as_int(PageLayout::Single), 0);
    assert_eq!(page_layout_as_int(PageLayout::TwoColumnRight), 3);
    assert_eq!(page_layout_from_int(6), PageLayout::Default);
    assert_eq!(page_layout_from_int(2), PageLayout::TwoColumnLeft);
    for layout in [
        PageLayout::Default,
        PageLayout::Single,
        PageLayout::OneColumn,
        PageLayout::TwoColumnLeft,
        PageLayout::TwoColumnRight,
    ] {
        assert_eq!(page_layout_from_int(page_layout_as_int(layout)), layout);
    }
}

#[test]
fn line_cap_codes() {
    assert_eq!(line_cap_as_int(LineCap::Butt), 0);
    assert_eq!(line_cap_as_int(LineCap::ProjectingSquare), 2);
    assert_eq!(line_cap_from_int(1), LineCap::Round);
}

#[test]
fn line_join_codes() {
    assert_eq!(line_join_as_int(LineJoin::Miter), 0);
    assert_eq!(line_join_as_int(LineJoin::Bevel), 2);
    assert_eq!(line_join_from_int(1), LineJoin::Round);
}

#[test]
fn color_space_codes() {
    assert_eq!(color_space_from_int(0), ColorSpace::DeviceGray);
    assert_eq!(color_space_from_int(5), ColorSpace::Lab);
    assert_eq!(color_space_from_int(9), ColorSpace::Indexed);
}

#[test]
fn text_alignment_codes() {
    assert_eq!(text_alignment_as_int(TextAlignment::Left), 0);
    assert_eq!(text_alignment_as_int(TextAlignment::Center), 2);
    assert_eq!(text_alignment_as_int(TextAlignment::Justify), 3);
}
