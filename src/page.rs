//! What the page operations decide about native results, apart from the native calls.
use crate::error::Error;
use crate::types::{color_space_code, color_space_from_int, ColorSpace};
use vstd::prelude::*;

verus! {

/// The native code that a color space getter returns for a page it cannot read (`HPDF_CS_EOF`).
pub const COLOR_SPACE_EOF: u32 = 11;

/// Returns the color space that a native color space getter reported, where the end marker
/// means that the page handle was invalid.
pub fn color_space_result(code: u32) -> (r: Result<ColorSpace, Error>)
    requires
        code <= COLOR_SPACE_EOF,
    ensures
        code == COLOR_SPACE_EOF ==> r == Err::<ColorSpace, Error>(Error::InvalidPage),
        code < COLOR_SPACE_EOF ==> (r matches Ok(cs) && color_space_code(cs) == code),
{
    if code == COLOR_SPACE_EOF {
        Err(Error::InvalidPage)
    } else {
        Ok(color_space_from_int(code))
    }
}

/// The outcome of printing text into a rectangle: text that does not fit is clipped, so the
/// native report of insufficient space counts as success; any other result stands.
pub open spec fn spec_text_rect_result(native: Result<(), Error>) -> Result<(), Error> {
    match native {
        Err(Error::PageInsufficientSpace) => Ok(()),
        other => other,
    }
}

/// Returns the outcome of printing text into a rectangle from the guard's verdict on the native
/// call.
pub fn text_rect_result(native: Result<(), Error>) -> (r: Result<(), Error>)
    ensures
        r == spec_text_rect_result(native),
        native is Ok ==> r is Ok,
        native == Err::<(), Error>(Error::PageInsufficientSpace) ==> r is Ok,
        native matches Err(e) ==> (e != Error::PageInsufficientSpace ==> r == native),
{
    match native {
        Err(Error::PageInsufficientSpace) => Ok(()),
        other => other,
    }
}

/// Returns the dash pattern that the native dash mode holds: the first `num_ptn` entries of its
/// fixed array of eight.
pub fn dash_pattern(ptn: [u16; 8], num_ptn: u32) -> (r: Vec<u16>)
    requires
        num_ptn <= 8,
    ensures
        r@ == ptn@.subrange(0, num_ptn as int),
{
    let n = num_ptn as usize;
    let mut r: Vec<u16> = Vec::new();
    let mut i: usize = 0;
    while i < n
        invariant
            n == num_ptn,
            n <= 8,
            ptn@.len() == 8,
            i <= n,
            r@ == ptn@.subrange(0, i as int),
        decreases n - i,
    {
        r.push(ptn[i]);
        i = i + 1;
    }
    r
}

} // verus!
