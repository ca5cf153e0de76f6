//! Core of a small web service that shows per-request diagnostics: a visit
//! counter whose only operation is an atomic increment-and-fetch, and a pure
//! renderer that turns the current count into an SVG status badge whose width
//! grows with the number of decimal digits.
//!
//! The HTTP routing, page templating and process startup around this core are
//! unverified glue and live outside the library.

use vstd::prelude::*;

pub mod badge;
pub mod counter;

verus! {

/// The label this crate is built under, shown on the diagnostics page beside
/// the visit count. No build-time probe of the toolchain is available here,
/// so the label is a fixed string.
pub open spec fn spec_rust_version() -> Seq<char> {
    "rustc (version not recorded)"@
}

/// Returns the toolchain label for the diagnostics page.
pub fn get_rust_version() -> (v: &'static str)
    ensures
        v@ == spec_rust_version(),
{
    "rustc (version not recorded)"
}

} // verus!
