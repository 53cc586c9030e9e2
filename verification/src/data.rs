//! The record variants handled by the network and the identifiers that
//! address them.
//!
//! Records fall into three categories: structured (owned, mutable under the
//! quorum rule), immutable (fixed content, named by its hash) and plain
//! (arbitrary name and content).

use vstd::prelude::*;

use crate::crypto::sha3_256;
use crate::crypto::sha3_256_of;
use crate::encoding::lemma_u64_le_seq_injective;
use crate::encoding::push_bytes32;
use crate::encoding::push_le8;
use crate::encoding::u64_le_seq;
use crate::error::Error;
use crate::immutable_data::ImmutableData;
use crate::plain_data::PlainData;
use crate::structured_data::StructuredData;

verus! {

/// Data types handled by the network.
#[derive(Clone, Debug, PartialEq, Eq)]
pub enum Data {
    /// `StructuredData` data type.
    Structured(StructuredData),
    /// `ImmutableData` data type.
    Immutable(ImmutableData),
    /// `PlainData` data type.
    Plain(PlainData),
}

/// An identifier to address a data chunk.
#[derive(Clone, Copy, Debug, PartialEq, Eq, Hash)]
pub enum DataIdentifier {
    /// An (identifier, type tag) pair, for `StructuredData`.
    Structured([u8; 32], u64),
    /// An identifier, for `ImmutableData`.
    Immutable([u8; 32]),
    /// An identifier, for `PlainData`.
    Plain([u8; 32]),
}

/// The storage key derived for a structured identifier: the hash of the name
/// followed by the canonical encoding of the type tag.
pub open spec fn structured_local_name(name: Seq<u8>, tag: u64) -> Seq<u8> {
    sha3_256_of(name + u64_le_seq(tag))
}

impl Data {
    /// The stored name of the active variant.
    pub open spec fn name_spec(self) -> Seq<u8> {
        match self {
            Data::Structured(data) => data.name@,
            Data::Immutable(data) => data.name@,
            Data::Plain(data) => data.name@,
        }
    }

    /// The identifier of the active variant.
    pub open spec fn identifier_spec(self) -> DataIdentifier {
        match self {
            Data::Structured(data) => DataIdentifier::Structured(data.name, data.type_tag),
            Data::Immutable(data) => DataIdentifier::Immutable(data.name),
            Data::Plain(data) => DataIdentifier::Plain(data.name),
        }
    }

    /// The byte length of the carried payload of the active variant.
    pub open spec fn payload_size_spec(self) -> nat {
        match self {
            Data::Structured(data) => data.data@.len(),
            Data::Immutable(data) => data.value@.len(),
            Data::Plain(data) => data.value@.len(),
        }
    }

    /// Returns the data name.
    pub fn name(&self) -> (r: &[u8; 32])
        ensures
            r@ == self.name_spec(),
    {
        match self {
            Data::Structured(data) => data.name(),
            Data::Immutable(data) => data.name(),
            Data::Plain(data) => data.name(),
        }
    }

    /// Returns the data identifier.
    pub fn identifier(&self) -> (r: DataIdentifier)
        ensures
            r == self.identifier_spec(),
    {
        match self {
            Data::Structured(data) => data.identifier(),
            Data::Immutable(data) => data.identifier(),
            Data::Plain(data) => data.identifier(),
        }
    }

    /// Returns the data size.
    pub fn payload_size(&self) -> (r: usize)
        ensures
            r == self.payload_size_spec(),
    {
        match self {
            Data::Structured(data) => data.payload_size(),
            Data::Immutable(data) => data.payload_size(),
            Data::Plain(data) => data.payload_size(),
        }
    }
}

impl DataIdentifier {
    /// The stored name carried by the identifier.
    pub open spec fn name_spec(self) -> Seq<u8> {
        match self {
            DataIdentifier::Structured(name, _) => name@,
            DataIdentifier::Immutable(name) => name@,
            DataIdentifier::Plain(name) => name@,
        }
    }

    /// Returns the identifier's name.
    pub fn name(&self) -> (r: &[u8; 32])
        ensures
            r@ == self.name_spec(),
    {
        match self {
            DataIdentifier::Structured(name, _) => name,
            DataIdentifier::Immutable(name) => name,
            DataIdentifier::Plain(name) => name,
        }
    }

    /// The identifier's local name: the key under which the record is stored.
    ///
    /// For `Structured` identifiers the key is the 256-bit hash over the name
    /// concatenated with the canonical encoding of the type tag; for
    /// `Immutable` and `Plain` identifiers it is the name itself. The tag
    /// encoding is total, so the call always succeeds; the `Result` carries
    /// the `Serialisation` error an encoding failure would surface as.
    pub fn local_name(&self) -> (r: Result<[u8; 32], Error>)
        ensures
            r is Ok,
            match *self {
                DataIdentifier::Structured(name, tag) => r->Ok_0@ == structured_local_name(
                    name@,
                    tag,
                ),
                DataIdentifier::Immutable(name) => r->Ok_0@ == name@,
                DataIdentifier::Plain(name) => r->Ok_0@ == name@,
            },
    {
        match self {
            DataIdentifier::Structured(name, tag) => {
                let mut input: Vec<u8> = Vec::new();
                push_bytes32(&mut input, name);
                push_le8(&mut input, *tag);
                proof {
                    assert(input@ =~= name@ + u64_le_seq(*tag));
                }
                Ok(sha3_256(&input))
            },
            DataIdentifier::Immutable(name) => Ok(*name),
            DataIdentifier::Plain(name) => Ok(*name),
        }
    }
}

/// The storage key of a structured identifier is a pure function of its name
/// and type tag: identical pairs always derive the identical key.
pub proof fn lemma_structured_key_deterministic(
    name1: [u8; 32],
    tag1: u64,
    name2: [u8; 32],
    tag2: u64,
)
    requires
        name1@ == name2@,
        tag1 == tag2,
    ensures
        structured_local_name(name1@, tag1) == structured_local_name(name2@, tag2),
{
}

/// Identifiers that share a name but differ in type tag hash distinct byte
/// sequences, so their derived keys are the digests of distinct inputs.
/// Distinct keys then follow from the hash's collision resistance, which is
/// not modelled here.
pub proof fn lemma_distinct_tags_hash_distinct_inputs(name: Seq<u8>, tag1: u64, tag2: u64)
    requires
        tag1 != tag2,
    ensures
        name + u64_le_seq(tag1) != name + u64_le_seq(tag2),
{
    if name + u64_le_seq(tag1) == name + u64_le_seq(tag2) {
        assert(u64_le_seq(tag1) =~= u64_le_seq(tag2)) by {
            assert(forall|k: int|
                0 <= k < 8 ==> u64_le_seq(tag1)[k] == (name + u64_le_seq(tag1))[name.len()
                    + k] && u64_le_seq(tag2)[k] == (name + u64_le_seq(tag2))[name.len() + k]);
        }
        lemma_u64_le_seq_injective(tag1, tag2);
    }
}

} // verus!
