//! The error type shared by both encoders.

use vstd::prelude::*;

verus! {

/// `std::fmt::Error`, the unit-like marker that a failed formatting step
/// returns. It is carried through as an opaque value.
#[verifier::external_type_specification]
#[verifier::external_body]
pub struct ExFmtError(std::fmt::Error);

/// `std::io::Error`, carried through as an opaque value.
#[verifier::external_type_specification]
#[verifier::external_body]
pub struct ExIoError(std::io::Error);

/// Why an item could not be encoded, or why a later stage of the same
/// pipeline failed.
#[derive(Debug)]
pub enum Error {
    /// Writing the item's text failed: the item's own rendering reported a
    /// fault. The one other cause is a buffer that has no room for the line
    /// and is so large that it cannot be grown.
    Fmt(std::fmt::Error),
    /// A transport failed. No encoder produces this variant; it exists so that
    /// a pipeline which also performs I/O can use this one error type.
    Io(std::io::Error),
}

impl From<std::io::Error> for Error {
    /// Wraps a transport error, unchanged, in [`Error::Io`].
    fn from(e: std::io::Error) -> (ret: Self)
        ensures
            ret == Error::Io(e),
    {
        Error::Io(e)
    }
}

impl vstd::std_specs::convert::FromSpecImpl<std::io::Error> for Error {
    open spec fn obeys_from_spec() -> bool {
        true
    }

    open spec fn from_spec(e: std::io::Error) -> Self {
        Error::Io(e)
    }
}

} // verus!
