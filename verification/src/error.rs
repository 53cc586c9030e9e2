//! The shared error type produced by record validation and addressing.

use vstd::prelude::*;

verus! {

/// Why a record operation was refused.
#[derive(Clone, Copy, Debug, PartialEq, Eq, Structural)]
pub enum Error {
    /// A candidate successor does not structurally match its predecessor
    /// (wrong type tag, name, version step, or quorum identity).
    Signature,
    /// The quorum was not met: duplicate signatures, too few signatures,
    /// or too few cryptographically valid signatures.
    Validation,
    /// A canonical encoding could not be produced.
    Serialisation,
}

} // verus!
