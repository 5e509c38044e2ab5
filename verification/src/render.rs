//! Rendering an item into text, by the item's own `Debug` or `Display`.
//!
//! What an item renders to is decided by code that the item's type brings
//! along. Nothing is claimed of it here: whatever comes back, a text or a
//! failure, is handed on to [`crate::line::write_rendered`].

use std::fmt::{Debug, Display, Write};
use vstd::prelude::*;

verus! {

/// Formats `item` with `{:?}` into a fresh `String`: one call of `String`'s
/// `std::fmt::Write::write_fmt`, made by `write!`.
///
/// Returns the text that the item's `Debug` implementation wrote, or the
/// error that it reported. No contract: what either is depends on that
/// implementation alone.
#[verifier::external_body]
pub(crate) fn render_debug<I: Debug>(item: &I) -> Result<String, std::fmt::Error> {
    let mut text = String::new();
    match write!(text, "{:?}", item) {
        Ok(()) => Ok(text),
        Err(fault) => Err(fault),
    }
}

/// Formats `item` with `{}` into a fresh `String`: one call of `String`'s
/// `std::fmt::Write::write_fmt`, made by `write!`.
///
/// Returns the text that the item's `Display` implementation wrote, or the
/// error that it reported. No contract: what either is depends on that
/// implementation alone.
#[verifier::external_body]
pub(crate) fn render_display<I: Display>(item: &I) -> Result<String, std::fmt::Error> {
    let mut text = String::new();
    match write!(text, "{}", item) {
        Ok(()) => Ok(text),
        Err(fault) => Err(fault),
    }
}

} // verus!
