//! The mutable structured record and its quorum-signature update protocol.
//!
//! A structured record may be stored unsigned with previous and current owner
//! keys set to the same keys; updates require a strict majority of the
//! authorizing quorum to sign the candidate version's canonical payload.

use vstd::prelude::*;

use crate::crypto::signature_checks;
use crate::crypto::signature_of;
use crate::crypto::sign_detached;
use crate::crypto::verify_detached;
use crate::crypto::PublicKey;
use crate::crypto::SecretKey;
use crate::crypto::Signature;
use crate::data::DataIdentifier;
use crate::encoding::canonical_payload;
use crate::encoding::encode_payload;
use crate::error::Error;

verus! {

/// Maximum allowed size for a structured record's data to grow to.
pub const MAX_BYTES: usize = 102400;

/// Mutable structured data.
///
/// The record lineage is identified permanently by `name` and `type_tag`;
/// `data`, the owner-key lists and the signature list change only through a
/// whole-version replacement that increases `version` by exactly one.
#[derive(Clone, Debug, PartialEq, Eq)]
pub struct StructuredData {
    pub type_tag: u64,
    pub name: [u8; 32],
    pub data: Vec<u8>,
    pub previous_owner_keys: Vec<PublicKey>,
    pub version: u64,
    pub current_owner_keys: Vec<PublicKey>,
    pub previous_owner_signatures: Vec<Signature>,
    pub ledger: bool,
}

/// Whether two byte-identical signatures occur in the list.
pub open spec fn has_duplicate_sigs(sigs: Seq<Signature>) -> bool {
    exists|i: int, j: int| 0 <= i < j < sigs.len() && sigs[i]@ == sigs[j]@
}

/// Whether a signature verifies over the payload under any key of the quorum.
pub open spec fn sig_counts(sig: Signature, payload: Seq<u8>, keys: Seq<PublicKey>) -> bool {
    exists|k: int| 0 <= k < keys.len() && signature_checks(sig@, payload, keys[k]@)
}

/// How many entries of the signature list verify over the payload under some
/// key of the quorum.
pub open spec fn valid_sig_count(sigs: Seq<Signature>, payload: Seq<u8>, keys: Seq<PublicKey>) -> int
    decreases sigs.len(),
{
    if sigs.len() == 0 {
        0
    } else {
        valid_sig_count(sigs.drop_last(), payload, keys) + if sig_counts(
            sigs.last(),
            payload,
            keys,
        ) {
            1int
        } else {
            0int
        }
    }
}

/// Half of `n`, rounded up: the cheap cardinality pre-check bound applied to
/// the raw signature count before any cryptographic verification.
pub open spec fn ceil_half(n: int) -> int {
    n / 2 + n % 2
}

/// The smallest strict majority of `n`.
pub open spec fn majority_threshold(n: int) -> int {
    n / 2 + 1
}

/// The quorum rule on one signature list: no byte-identical duplicates, at
/// least half of the quorum's size as raw entries, and a strict majority of
/// the quorum's size as cryptographically valid entries.
pub open spec fn quorum_satisfied(sigs: Seq<Signature>, payload: Seq<u8>, keys: Seq<PublicKey>) -> bool {
    &&& !has_duplicate_sigs(sigs)
    &&& sigs.len() >= ceil_half(keys.len() as int)
    &&& 2 * valid_sig_count(sigs, payload, keys) > keys.len()
}

/// Ordered, element-for-element comparison of two key lists.
pub fn key_vecs_eq(a: &Vec<PublicKey>, b: &Vec<PublicKey>) -> (r: bool)
    ensures
        r <==> a@ == b@,
{
    if a.len() != b.len() {
        return false;
    }
    let mut i: usize = 0;
    while i < a.len()
        invariant
            0 <= i <= a@.len(),
            a@.len() == b@.len(),
            forall|j: int| 0 <= j < i ==> a@[j] == b@[j],
        decreases a@.len() - i,
    {
        if !a[i].equals(&b[i]) {
            return false;
        }
        proof {
            assert(a@[i as int].bytes =~= b@[i as int].bytes);
        }
        i = i + 1;
    }
    proof {
        assert(a@ =~= b@);
    }
    true
}

/// Whether `sig` verifies over `payload` under any key in `keys`.
fn any_key_checks(sig: &Signature, payload: &Vec<u8>, keys: &Vec<PublicKey>) -> (r: bool)
    ensures
        r == sig_counts(*sig, payload@, keys@),
{
    let mut k: usize = 0;
    while k < keys.len()
        invariant
            0 <= k <= keys@.len(),
            forall|m: int| 0 <= m < k ==> !signature_checks(sig@, payload@, keys@[m]@),
        decreases keys@.len() - k,
    {
        if verify_detached(sig, payload, &keys[k]) {
            return true;
        }
        k = k + 1;
    }
    false
}

impl StructuredData {
    /// The canonical signing payload of this version.
    pub open spec fn payload_spec(self) -> Seq<u8> {
        canonical_payload(
            self.type_tag,
            self.name@,
            self.data@,
            self.previous_owner_keys@,
            self.current_owner_keys@,
            self.version,
        )
    }

    /// The quorum that must authorize this version: the previous owners where
    /// any are recorded, else the current owners.
    pub open spec fn quorum_spec(self) -> Seq<PublicKey> {
        if self.previous_owner_keys@.len() == 0 {
            self.current_owner_keys@
        } else {
            self.previous_owner_keys@
        }
    }

    /// Structural agreement between this stored record and a candidate
    /// successor: same type tag and name, version one greater, and the
    /// candidate's authorizing quorum equal to this record's current owners.
    pub open spec fn successor_form_ok(self, other: StructuredData) -> bool {
        &&& other.type_tag == self.type_tag
        &&& other.name@ == self.name@
        &&& other.version == self.version + 1
        &&& other.quorum_spec() == self.current_owner_keys@
    }

    /// The full update rule: structural agreement, and the candidate's own
    /// signature list satisfies the quorum over the candidate's payload.
    pub open spec fn accepts_successor(self, other: StructuredData) -> bool {
        &&& self.successor_form_ok(other)
        &&& quorum_satisfied(
            other.previous_owner_signatures@,
            other.payload_spec(),
            other.quorum_spec(),
        )
    }

    /// How many further signatures this version still needs for a strict
    /// majority of its authorizing quorum, clamped at zero.
    pub open spec fn remaining_spec(self) -> int {
        let need = majority_threshold(self.quorum_spec().len() as int);
        let have = self.previous_owner_signatures@.len() as int;
        if need >= have {
            need - have
        } else {
            0
        }
    }

    /// Builds the canonical byte sequence that is signed and verified for
    /// this version.
    pub fn data_to_sign(&self) -> (r: Vec<u8>)
        ensures
            r@ == self.payload_spec(),
    {
        encode_payload(
            self.type_tag,
            &self.name,
            &self.data,
            &self.previous_owner_keys,
            &self.current_owner_keys,
            self.version,
        )
    }

    /// Confirms that the unique and valid entries of
    /// `previous_owner_signatures` are a strict majority of `owner_keys`.
    pub fn verify_previous_owner_signatures(&self, owner_keys: &Vec<PublicKey>) -> (r: Result<
        (),
        Error,
    >)
        ensures
            r is Ok <==> quorum_satisfied(
                self.previous_owner_signatures@,
                self.payload_spec(),
                owner_keys@,
            ),
            r is Err ==> r->Err_0 == Error::Validation,
    {
        let n_sigs: usize = self.previous_owner_signatures.len();
        // Refuse any duplicate signatures: a single signing act must not be
        // counted twice.
        let mut i: usize = 0;
        while i < n_sigs
            invariant
                0 <= i <= n_sigs,
                n_sigs == self.previous_owner_signatures@.len(),
                forall|p: int, q: int|
                    0 <= p < q < i ==> self.previous_owner_signatures@[p]@
                        != self.previous_owner_signatures@[q]@,
            decreases n_sigs - i,
        {
            let mut j: usize = 0;
            while j < i
                invariant
                    0 <= j <= i < n_sigs,
                    n_sigs == self.previous_owner_signatures@.len(),
                    forall|q: int|
                        0 <= q < j ==> self.previous_owner_signatures@[q]@
                            != self.previous_owner_signatures@[i as int]@,
                decreases i - j,
            {
                if self.previous_owner_signatures[j].equals(&self.previous_owner_signatures[i]) {
                    proof {
                        assert(has_duplicate_sigs(self.previous_owner_signatures@));
                    }
                    return Err(Error::Validation);
                }
                j = j + 1;
            }
            i = i + 1;
        }
        // Refuse when not enough signatures were collected at all.
        let n_keys: usize = owner_keys.len();
        if n_sigs < n_keys / 2 + n_keys % 2 {
            return Err(Error::Validation);
        }
        // Count the cryptographically valid signatures against the payload.
        let payload = self.data_to_sign();
        let mut valid: usize = 0;
        let mut s: usize = 0;
        while s < n_sigs
            invariant
                0 <= s <= n_sigs,
                n_sigs == self.previous_owner_signatures@.len(),
                payload@ == self.payload_spec(),
                valid <= s,
                valid == valid_sig_count(
                    self.previous_owner_signatures@.take(s as int),
                    payload@,
                    owner_keys@,
                ),
            decreases n_sigs - s,
        {
            if any_key_checks(&self.previous_owner_signatures[s], &payload, owner_keys) {
                valid = valid + 1;
            }
            proof {
                assert(self.previous_owner_signatures@.take(s as int + 1).drop_last()
                    =~= self.previous_owner_signatures@.take(s as int));
                assert(self.previous_owner_signatures@.take(s as int + 1).last()
                    == self.previous_owner_signatures@[s as int]);
            }
            s = s + 1;
        }
        proof {
            assert(self.previous_owner_signatures@.take(n_sigs as int)
                =~= self.previous_owner_signatures@);
            lemma_majority_bound(valid as int, n_keys as int);
        }
        // Refuse unless the valid signatures are a strict majority.
        if valid < n_keys / 2 + 1 {
            return Err(Error::Validation);
        }
        Ok(())
    }

    /// Verifies that `other` is a valid update for `self`; returns an error
    /// otherwise.
    ///
    /// An update is valid when it keeps the type tag and name, increases the
    /// version by exactly one, and is signed by a strict majority of the
    /// authorizing quorum, which must equal this record's current owners. On
    /// an ownership transfer the candidate's `previous_owner_keys` carry that
    /// quorum; on a simple update its `current_owner_keys` do.
    pub fn validate_self_against_successor(&self, other: &StructuredData) -> (r: Result<
        (),
        Error,
    >)
        ensures
            r is Ok <==> self.accepts_successor(*other),
            !self.successor_form_ok(*other) ==> r == Err::<(), Error>(Error::Signature),
            self.successor_form_ok(*other) && r is Err ==> r == Err::<(), Error>(
                Error::Validation,
            ),
    {
        let owner_keys_to_match: &Vec<PublicKey> = if other.previous_owner_keys.len() == 0 {
            &other.current_owner_keys
        } else {
            &other.previous_owner_keys
        };
        let version_steps: bool = other.version >= 1 && other.version - 1 == self.version;
        if other.type_tag != self.type_tag || !crate::crypto::bytes_eq(
            self.name.as_slice(),
            other.name.as_slice(),
        ) || !version_steps || !key_vecs_eq(owner_keys_to_match, &self.current_owner_keys) {
            return Err(Error::Signature);
        }
        other.verify_previous_owner_signatures(owner_keys_to_match)
    }

    /// Adds a signature with the given `secret_key` to
    /// `previous_owner_signatures` and returns the number of signatures that
    /// are still required for a strict majority of the authorizing quorum.
    pub fn add_signature(&mut self, secret_key: &SecretKey) -> (r: Result<usize, Error>)
        ensures
            r is Ok,
            final(self).previous_owner_signatures@.len()
                == old(self).previous_owner_signatures@.len() + 1,
            forall|i: int|
                0 <= i < old(self).previous_owner_signatures@.len()
                    ==> final(self).previous_owner_signatures@[i]
                    == old(self).previous_owner_signatures@[i],
            final(self).previous_owner_signatures@.last()@ == signature_of(
                old(self).payload_spec(),
                secret_key@,
            ),
            final(self).type_tag == old(self).type_tag,
            final(self).name == old(self).name,
            final(self).data == old(self).data,
            final(self).previous_owner_keys == old(self).previous_owner_keys,
            final(self).version == old(self).version,
            final(self).current_owner_keys == old(self).current_owner_keys,
            final(self).ledger == old(self).ledger,
            r->Ok_0 == final(self).remaining_spec(),
    {
        let payload = self.data_to_sign();
        let sig = sign_detached(&payload, secret_key);
        self.previous_owner_signatures.push(sig);
        let quorum_len: usize = if self.previous_owner_keys.len() == 0 {
            self.current_owner_keys.len()
        } else {
            self.previous_owner_keys.len()
        };
        let need: usize = quorum_len / 2 + 1;
        let have: usize = self.previous_owner_signatures.len();
        if need >= have {
            Ok(need - have)
        } else {
            Ok(0)
        }
    }

    /// Replaces this record with the given updated version if the update is
    /// valid, otherwise returns an error and leaves every field unchanged.
    pub fn replace_with_other(&mut self, other: StructuredData) -> (r: Result<(), Error>)
        ensures
            r is Ok <==> old(self).accepts_successor(other),
            !old(self).successor_form_ok(other) ==> r == Err::<(), Error>(Error::Signature),
            old(self).successor_form_ok(other) && r is Err ==> r == Err::<(), Error>(
                Error::Validation,
            ),
            r is Ok ==> final(self).type_tag == other.type_tag && final(self).name == other.name
                && final(self).data == other.data
                && final(self).previous_owner_keys == other.previous_owner_keys
                && final(self).version == other.version
                && final(self).current_owner_keys == other.current_owner_keys
                && final(self).previous_owner_signatures == other.previous_owner_signatures
                && final(self).ledger == old(self).ledger,
            r is Err ==> *final(self) == *old(self),
    {
        match self.validate_self_against_successor(&other) {
            Ok(()) => {
                let StructuredData {
                    type_tag,
                    name,
                    data,
                    previous_owner_keys,
                    version,
                    current_owner_keys,
                    previous_owner_signatures,
                    ledger: _,
                } = other;
                self.type_tag = type_tag;
                self.name = name;
                self.data = data;
                self.previous_owner_keys = previous_owner_keys;
                self.version = version;
                self.current_owner_keys = current_owner_keys;
                self.previous_owner_signatures = previous_owner_signatures;
                Ok(())
            },
            Err(e) => Err(e),
        }
    }

    /// Creates a new `StructuredData`, signed with `signing_key` when one is
    /// supplied.
    pub fn new(
        type_tag: u64,
        name: [u8; 32],
        version: u64,
        data: Vec<u8>,
        current_owner_keys: Vec<PublicKey>,
        previous_owner_keys: Vec<PublicKey>,
        signing_key: Option<&SecretKey>,
        ledger: bool,
    ) -> (r: Result<StructuredData, Error>)
        ensures
            r is Ok,
            r->Ok_0.type_tag == type_tag,
            r->Ok_0.name == name,
            r->Ok_0.data == data,
            r->Ok_0.previous_owner_keys == previous_owner_keys,
            r->Ok_0.version == version,
            r->Ok_0.current_owner_keys == current_owner_keys,
            r->Ok_0.ledger == ledger,
            signing_key is None ==> r->Ok_0.previous_owner_signatures@.len() == 0,
            signing_key is Some ==> r->Ok_0.previous_owner_signatures@.len() == 1
                && r->Ok_0.previous_owner_signatures@[0]@ == signature_of(
                canonical_payload(
                    type_tag,
                    name@,
                    data@,
                    previous_owner_keys@,
                    current_owner_keys@,
                    version,
                ),
                signing_key->0@,
            ),
    {
        let mut structured_data = StructuredData {
            type_tag,
            name,
            data,
            previous_owner_keys,
            version,
            current_owner_keys,
            previous_owner_signatures: Vec::new(),
            ledger,
        };
        match signing_key {
            Some(key) => match structured_data.add_signature(key) {
                Ok(_) => Ok(structured_data),
                Err(e) => Err(e),
            },
            None => Ok(structured_data),
        }
    }

    /// Overwrites any existing signatures with the new signatures provided.
    pub fn replace_signatures(&mut self, new_signatures: Vec<Signature>)
        ensures
            final(self).previous_owner_signatures == new_signatures,
            final(self).type_tag == old(self).type_tag,
            final(self).name == old(self).name,
            final(self).data == old(self).data,
            final(self).previous_owner_keys == old(self).previous_owner_keys,
            final(self).version == old(self).version,
            final(self).current_owner_keys == old(self).current_owner_keys,
            final(self).ledger == old(self).ledger,
    {
        self.previous_owner_signatures = new_signatures;
    }

    /// Returns the name.
    pub fn name(&self) -> (r: &[u8; 32])
        ensures
            r@ == self.name@,
    {
        &self.name
    }

    /// Whether this is a ledger record.
    pub fn ledger(&self) -> (r: bool)
        ensures
            r == self.ledger,
    {
        self.ledger
    }

    /// The version of this record.
    pub fn version(&self) -> (r: u64)
        ensures
            r == self.version,
    {
        self.version
    }

    /// Returns the `DataIdentifier` for this record.
    pub fn identifier(&self) -> (r: DataIdentifier)
        ensures
            r == DataIdentifier::Structured(self.name, self.type_tag),
    {
        DataIdentifier::Structured(self.name, self.type_tag)
    }

    /// Returns the type tag.
    pub fn get_type_tag(&self) -> (r: u64)
        ensures
            r == self.type_tag,
    {
        self.type_tag
    }

    /// Returns the carried data.
    pub fn get_data(&self) -> (r: &Vec<u8>)
        ensures
            r@ == self.data@,
    {
        &self.data
    }

    /// Returns the previous owner keys.
    pub fn get_previous_owner_keys(&self) -> (r: &Vec<PublicKey>)
        ensures
            r@ == self.previous_owner_keys@,
    {
        &self.previous_owner_keys
    }

    /// Returns the version.
    pub fn get_version(&self) -> (r: u64)
        ensures
            r == self.version,
    {
        self.version
    }

    /// Returns the current owner keys.
    pub fn get_owner_keys(&self) -> (r: &Vec<PublicKey>)
        ensures
            r@ == self.current_owner_keys@,
    {
        &self.current_owner_keys
    }

    /// Returns the previous owner signatures.
    pub fn get_previous_owner_signatures(&self) -> (r: &Vec<Signature>)
        ensures
            r@ == self.previous_owner_signatures@,
    {
        &self.previous_owner_signatures
    }

    /// Returns the byte length of the carried data.
    pub fn payload_size(&self) -> (r: usize)
        ensures
            r == self.data@.len(),
    {
        self.data.len()
    }
}

/// Relates the executable strict-majority test to its mathematical form:
/// a count reaches `floor(n / 2) + 1` exactly when twice the count exceeds
/// `n`.
proof fn lemma_majority_bound(count: int, n: int)
    requires
        n >= 0,
        count >= 0,
    ensures
        count >= majority_threshold(n) <==> 2 * count > n,
{
    assert(n == 2 * (n / 2) + n % 2) by (nonlinear_arith);
    assert(0 <= n % 2 < 2) by (nonlinear_arith)
        requires
            n >= 0,
    ;
}

/// Every entry of the signature list is valid, so the valid count is the
/// whole length.
proof fn lemma_all_valid_count(sigs: Seq<Signature>, payload: Seq<u8>, keys: Seq<PublicKey>)
    requires
        forall|i: int| 0 <= i < sigs.len() ==> sig_counts(sigs[i], payload, keys),
    ensures
        valid_sig_count(sigs, payload, keys) == sigs.len(),
    decreases sigs.len(),
{
    if sigs.len() > 0 {
        assert(forall|i: int|
            0 <= i < sigs.drop_last().len() ==> sigs.drop_last()[i] == sigs[i]);
        lemma_all_valid_count(sigs.drop_last(), payload, keys);
        assert(sig_counts(sigs[sigs.len() - 1], payload, keys));
    }
}

/// For all quorum sizes of at least one and signature lists made of distinct,
/// valid signatures, the quorum check accepts exactly when the signature
/// count is a strict majority of the quorum's size; in particular it rejects
/// at exactly half of an even quorum.
pub proof fn lemma_distinct_valid_majority(
    sigs: Seq<Signature>,
    payload: Seq<u8>,
    keys: Seq<PublicKey>,
)
    requires
        keys.len() >= 1,
        !has_duplicate_sigs(sigs),
        forall|i: int| 0 <= i < sigs.len() ==> sig_counts(sigs[i], payload, keys),
    ensures
        quorum_satisfied(sigs, payload, keys) <==> sigs.len() > keys.len() as int / 2,
        keys.len() % 2 == 0 && 2 * sigs.len() == keys.len() ==> !quorum_satisfied(
            sigs,
            payload,
            keys,
        ),
{
    lemma_all_valid_count(sigs, payload, keys);
    lemma_majority_bound(sigs.len() as int, keys.len() as int);
    assert(keys.len() as int % 2 <= 1) by (nonlinear_arith)
        requires
            keys.len() >= 1,
    ;
}

/// A byte-identical duplicate among the signatures forces rejection, however
/// many other signatures are valid.
pub proof fn lemma_duplicate_forces_rejection(
    sigs: Seq<Signature>,
    payload: Seq<u8>,
    keys: Seq<PublicKey>,
)
    requires
        has_duplicate_sigs(sigs),
    ensures
        !quorum_satisfied(sigs, payload, keys),
{
}

/// A candidate whose version is not exactly one greater than its
/// predecessor's is never accepted, whatever its signatures.
pub proof fn lemma_version_step_required(predecessor: StructuredData, candidate: StructuredData)
    requires
        candidate.version != predecessor.version + 1,
    ensures
        !predecessor.accepts_successor(candidate),
{
}

} // verus!
