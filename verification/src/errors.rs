//! Error values returned by key construction and container decoding.

use vstd::prelude::*;

verus! {

/// Why a signing key could not be built or a container could not be decoded.
///
/// Every failure in this crate is reported as one of these values; no
/// operation panics or substitutes default data.
#[derive(Clone, Copy, Debug, PartialEq, Eq, Structural)]
pub enum Error {
    /// A raw byte slice offered as a seed was not exactly 32 bytes long.
    InvalidSliceLength,
    /// A container's algorithm identifier was not the Ed25519 identifier.
    AlgorithmMismatch,
    /// A container's outer structure or inner framing was not well-formed.
    MalformedContainer,
}

} // verus!
