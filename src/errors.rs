//! The errors of the protocol's operations.
use vstd::prelude::*;

verus! {

/// Tweaking an aggregate key failed.
#[derive(Debug, Clone, Copy, PartialEq, Eq, PartialOrd, Ord, Hash, Structural)]
pub enum MusigTweakErr {
    /// The tweaked key would be the point at infinity: the tweak is the
    /// negation of the aggregate secret key.
    InvalidTweak,
}

/// Nonce generation failed.
#[derive(Debug, Clone, Copy, PartialEq, Eq, PartialOrd, Ord, Hash, Structural)]
pub enum MusigNonceGenError {
    /// The session identifier was all zeros.
    ZeroSession,
}

/// Reading a value from its wire format failed.
#[derive(Debug, Clone, Copy, PartialEq, Eq, PartialOrd, Ord, Hash, Structural)]
pub enum ParseError {
    /// The input has the wrong length.
    ArgLenMismatch {
        /// Expected size.
        expected: usize,
        /// Actual size.
        got: usize,
    },
    /// The input has the right length but does not encode a valid value: a
    /// point off the curve, or a scalar not below the group order.
    MalformedArg,
}

/// Partial signing failed.
#[derive(Debug, Clone, Copy, PartialEq, Eq, PartialOrd, Ord, Hash, Structural)]
pub enum MusigSignError {
    /// The secret nonce was already used: signing zeroes it, and a zeroed
    /// nonce is refused.
    NonceReuse,
}

} // verus!
