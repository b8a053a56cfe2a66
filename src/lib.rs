//! Verified core of a safe binding to the libharu PDF library.
//!
//! The native library owns every PDF semantic. What this crate proves is the part of the binding
//! that decides: how native status codes become [`Error`] values, what the document handle guard
//! does with a failed call, how host byte streams answer the native stream callbacks, and how the
//! binding's enumerations map onto the native codes.

pub mod error;
pub mod guard;
pub mod page;
pub mod stream;
pub mod types;

pub use error::Error;

pub use types::{
    color_space_from_int, line_cap_as_int, line_cap_from_int, line_join_as_int,
    line_join_from_int, page_layout_as_int, page_layout_from_int, text_alignment_as_int,
    ColorSpace, LineCap, LineJoin, PageLayout, TextAlignment,
};
