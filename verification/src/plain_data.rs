//! Data with no fixed content or name.

use vstd::prelude::*;

use crate::data::DataIdentifier;

verus! {

/// Data carrying an arbitrary name and content, with no update protocol.
#[derive(Clone, Debug, PartialEq, Eq)]
pub struct PlainData {
    pub name: [u8; 32],
    pub value: Vec<u8>,
}

impl PlainData {
    /// Creates a new `PlainData` with the given name and content.
    pub fn new(name: [u8; 32], value: Vec<u8>) -> (r: PlainData)
        ensures
            r.name@ == name@,
            r.value@ == value@,
    {
        PlainData { name, value }
    }

    /// Returns the name.
    pub fn name(&self) -> (r: &[u8; 32])
        ensures
            r@ == self.name@,
    {
        &self.name
    }

    /// Returns the carried content.
    pub fn value(&self) -> (r: &Vec<u8>)
        ensures
            r@ == self.value@,
    {
        &self.value
    }

    /// Returns the `DataIdentifier` for this data element.
    pub fn identifier(&self) -> (r: DataIdentifier)
        ensures
            r == DataIdentifier::Plain(self.name),
    {
        DataIdentifier::Plain(self.name)
    }

    /// Returns the byte length of the carried content.
    pub fn payload_size(&self) -> (r: usize)
        ensures
            r == self.value@.len(),
    {
        self.value.len()
    }
}

} // verus!
