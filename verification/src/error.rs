//! Error values surfaced by account validation and deserialization.
use vstd::prelude::*;

verus! {

/// A terminal validation failure.  Each variant is returned exactly where its
/// contract says; none is retried or interpreted further.
#[derive(Clone, Copy, Debug, PartialEq, Eq, Structural)]
pub enum MetadataError {
    /// The account's owner field differs from the expected owner.
    IncorrectOwner,
    /// The buffer's leading discriminant byte or its total length does not
    /// match what the expected account kind requires.
    DataTypeMismatch,
    /// The buffer passed the structural check but its contents do not form a
    /// well-formed value of the schema.
    InvalidData,
}

} // verus!
