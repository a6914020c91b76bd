//! The errors a decode can end in.

use vstd::prelude::*;

verus! {

/// Why a response buffer could not be decoded.
///
/// Failures of the transport that carries a command to the device are the
/// caller's to report: the codec never sees them.
#[derive(Debug, Clone, Copy, PartialEq, Eq, Structural)]
pub enum Sg3Error {
    /// The standard inquiry data announce a response data format other than 2.
    UnsupportedFormat,
    /// The page code of the response is not the one that was asked for.
    MalformedResponse,
    /// A header is cut short, or a declared length reaches past the bytes
    /// that are there.
    Truncated,
    /// A fixed-width text field does not hold valid UTF-8.
    TextDecode,
}

/// The outcome of a decode.
pub type Sg3Result<T> = Result<T, Sg3Error>;

} // verus!
