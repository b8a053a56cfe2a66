//! The binding's enumerations and the native integer codes they stand for.
use vstd::prelude::*;

verus! {

/// Describes how a page should be displayed.
#[derive(Clone, Copy, Debug, Eq, PartialEq)]
pub enum PageLayout {
    /// The viewer application determines the layout.
    Default,
    /// Only one page is displayed.
    Single,
    /// Display the pages in one column.
    OneColumn,
    /// Display the pages in two column. The page of the odd number is displayed left.
    TwoColumnLeft,
    /// Display the pages in two column. The page of the odd number is displayed right.
    TwoColumnRight,
}

/// Native code of a page layout: `HPDF_PageLayout`, where `Default` is the end marker
/// `HPDF_PAGE_LAYOUT_EOF`.
pub open spec fn page_layout_code(layout: PageLayout) -> u32 {
    match layout {
        PageLayout::Default => 6,
        PageLayout::Single => 0,
        PageLayout::OneColumn => 1,
        PageLayout::TwoColumnLeft => 2,
        PageLayout::TwoColumnRight => 3,
    }
}

/// The native page layout codes that the binding supports (the two-page layouts are not).
pub open spec fn is_page_layout_code(code: u32) -> bool {
    code <= 3 || code == 6
}

/// Converts a `PageLayout` to its corresponding internal layout code.
pub fn page_layout_as_int(layout: PageLayout) -> (code: u32)
    ensures
        code == page_layout_code(layout),
        is_page_layout_code(code),
{
    match layout {
        PageLayout::Default => 6,
        PageLayout::Single => 0,
        PageLayout::OneColumn => 1,
        PageLayout::TwoColumnLeft => 2,
        PageLayout::TwoColumnRight => 3,
    }
}

/// Returns a `PageLayout` for the internal layout code.
pub fn page_layout_from_int(code: u32) -> (layout: PageLayout)
    requires
        is_page_layout_code(code),
    ensures
        page_layout_code(layout) == code,
{
    match code {
        0 => PageLayout::Single,
        1 => PageLayout::OneColumn,
        2 => PageLayout::TwoColumnLeft,
        3 => PageLayout::TwoColumnRight,
        _ => PageLayout::Default,
    }
}

/// A list of all types of stroke line caps.
#[derive(Clone, Copy, Debug, Eq, PartialEq)]
pub enum LineCap {
    /// Line is squared off at path endpoint.
    Butt,
    /// End of line becomes a semicircle whose center is at path endpoint.
    Round,
    /// Line continues beyond endpoint, goes on half the endpoint stroke width.
    ProjectingSquare,
}

/// Native code of a line cap (`HPDF_LineCap`).
pub open spec fn line_cap_code(line_cap: LineCap) -> u32 {
    match line_cap {
        LineCap::Butt => 0,
        LineCap::Round => 1,
        LineCap::ProjectingSquare => 2,
    }
}

/// Converts a `LineCap` to its corresponding internal code.
pub fn line_cap_as_int(line_cap: LineCap) -> (code: u32)
    ensures
        code == line_cap_code(line_cap),
        code < 3,
{
    match line_cap {
        LineCap::Butt => 0,
        LineCap::Round => 1,
        LineCap::ProjectingSquare => 2,
    }
}

/// Returns a `LineCap` for the internal line cap code.
pub fn line_cap_from_int(code: u32) -> (line_cap: LineCap)
    requires
        code < 3,
    ensures
        line_cap_code(line_cap) == code,
{
    match code {
        0 => LineCap::Butt,
        1 => LineCap::Round,
        _ => LineCap::ProjectingSquare,
    }
}

/// A list of all types of stroke line joins.
#[derive(Clone, Copy, Debug, Eq, PartialEq)]
pub enum LineJoin {
    /// A perfect, sharp joint. Produces a corner with one angle.
    Miter,
    /// A circular joint. Produces a corner with a theoretically infinite number of angles.
    Round,
    /// A bevelled joint. Produces a corner with two angles.
    Bevel,
}

/// Native code of a line join (`HPDF_LineJoin`).
pub open spec fn line_join_code(line_join: LineJoin) -> u32 {
    match line_join {
        LineJoin::Miter => 0,
        LineJoin::Round => 1,
        LineJoin::Bevel => 2,
    }
}

/// Converts a `LineJoin` to its corresponding internal code.
pub fn line_join_as_int(line_join: LineJoin) -> (code: u32)
    ensures
        code == line_join_code(line_join),
        code < 3,
{
    match line_join {
        LineJoin::Miter => 0,
        LineJoin::Round => 1,
        LineJoin::Bevel => 2,
    }
}

/// Returns a `LineJoin` for the internal line join code.
pub fn line_join_from_int(code: u32) -> (line_join: LineJoin)
    requires
        code < 3,
    ensures
        line_join_code(line_join) == code,
{
    match code {
        0 => LineJoin::Miter,
        1 => LineJoin::Round,
        _ => LineJoin::Bevel,
    }
}

/// A list of all types of color spaces.
#[derive(Clone, Copy, Debug, Eq, PartialEq)]
pub enum ColorSpace {
    DeviceGray,
    DeviceRgb,
    DeviceCmyk,
    CalGray,
    CalRgb,
    Lab,
    IccBased,
    Separation,
    DeviceN,
    Indexed,
    Pattern,
}

/// Native code of a color space (`HPDF_ColorSpace`); the end marker `HPDF_CS_EOF` is 11.
pub open spec fn color_space_code(color_space: ColorSpace) -> u32 {
    match color_space {
        ColorSpace::DeviceGray => 0,
        ColorSpace::DeviceRgb => 1,
        ColorSpace::DeviceCmyk => 2,
        ColorSpace::CalGray => 3,
        ColorSpace::CalRgb => 4,
        ColorSpace::Lab => 5,
        ColorSpace::IccBased => 6,
        ColorSpace::Separation => 7,
        ColorSpace::DeviceN => 8,
        ColorSpace::Indexed => 9,
        ColorSpace::Pattern => 10,
    }
}

/// Returns a `ColorSpace` for the internal color space code.
pub fn color_space_from_int(code: u32) -> (color_space: ColorSpace)
    requires
        code < 11,
    ensures
        color_space_code(color_space) == code,
{
    match code {
        0 => ColorSpace::DeviceGray,
        1 => ColorSpace::DeviceRgb,
        2 => ColorSpace::DeviceCmyk,
        3 => ColorSpace::CalGray,
        4 => ColorSpace::CalRgb,
        5 => ColorSpace::Lab,
        6 => ColorSpace::IccBased,
        7 => ColorSpace::Separation,
        8 => ColorSpace::DeviceN,
        9 => ColorSpace::Indexed,
        _ => ColorSpace::Pattern,
    }
}

/// Describes how text should be aligned when displayed.
#[derive(Clone, Copy, Debug, Eq, PartialEq)]
pub enum TextAlignment {
    Left,
    Right,
    Center,
    Justify,
}

/// Native code of a text alignment (`HPDF_TextAlignment`).
pub open spec fn text_alignment_code(alignment: TextAlignment) -> u32 {
    match alignment {
        TextAlignment::Left => 0,
        TextAlignment::Right => 1,
        TextAlignment::Center => 2,
        TextAlignment::Justify => 3,
    }
}

/// Converts a `TextAlignment` to its corresponding internal code.
pub fn text_alignment_as_int(alignment: TextAlignment) -> (code: u32)
    ensures
        code == text_alignment_code(alignment),
        code < 4,
{
    match alignment {
        TextAlignment::Left => 0,
        TextAlignment::Right => 1,
        TextAlignment::Center => 2,
        TextAlignment::Justify => 3,
    }
}

} // verus!
