//! Write-once, content-addressed data: the name is the hash of the content.

use vstd::prelude::*;

use crate::crypto::sha3_256;
use crate::crypto::sha3_256_of;
use crate::data::DataIdentifier;

verus! {

/// Data that will not change its contents; the name is derived from the hash
/// of the content and self-validates.
#[derive(Clone, Debug, PartialEq, Eq)]
pub struct ImmutableData {
    pub name: [u8; 32],
    pub value: Vec<u8>,
}

impl ImmutableData {
    /// Creates a new `ImmutableData`, naming it by the hash of `value`.
    pub fn new(value: Vec<u8>) -> (r: ImmutableData)
        ensures
            r.value@ == value@,
            r.name@ == sha3_256_of(value@),
    {
        let name = sha3_256(&value);
        ImmutableData { name, value }
    }

    /// Returns the name.
    pub fn name(&self) -> (r: &[u8; 32])
        ensures
            r@ == self.name@,
    {
        &self.name
    }

    /// Returns the carried content.
    pub fn value(&self) -> (r: &Vec<u8>)
        ensures
            r@ == self.value@,
    {
        &self.value
    }

    /// Returns the `DataIdentifier` for this data element.
    pub fn identifier(&self) -> (r: DataIdentifier)
        ensures
            r == DataIdentifier::Immutable(self.name),
    {
        DataIdentifier::Immutable(self.name)
    }

    /// Returns the byte length of the carried content.
    pub fn payload_size(&self) -> (r: usize)
        ensures
            r == self.value@.len(),
    {
        self.value.len()
    }
}

} // verus!
