//! Decoding failures of the compressed wire format.
//!
//! Algebraic and signing operations never fail; only decoding byte
//! strings into group elements or scalars can, and each failure is
//! reported as one of these kinds.

use vstd::prelude::*;

verus! {

/// Why a byte string was rejected as the encoding of a group element.
#[derive(Clone, Copy, Debug, PartialEq, Eq, Structural)]
pub enum GroupDecodingError {
    /// The decoded coordinates do not satisfy the curve equation.
    NotOnCurve,
    /// The point lies on the curve but outside the prime-order subgroup.
    NotInSubgroup,
    /// A field-element coordinate encoding is out of range.
    CoordinateDecodingError,
    /// The compression flag bits are inconsistent.
    UnexpectedCompressionMode,
    /// The length or auxiliary bits do not match the fixed-size format.
    UnexpectedInformation,
}

} // verus!
