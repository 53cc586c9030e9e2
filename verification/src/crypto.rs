//! Key, signature and hash primitives at the library's boundary.
//!
//! The types here carry plain bytes; the cryptographic work itself is done by
//! outside crates behind a small set of trusted wrappers. Each wrapped call is
//! a pure function of its arguments, so its result is named by an
//! uninterpreted spec function that the wrappers' contracts share.

use vstd::prelude::*;

verus! {

/// A 32-byte public signing key.
#[derive(Clone, Copy, Debug, PartialEq, Eq, Hash)]
pub struct PublicKey {
    pub bytes: [u8; 32],
}

impl View for PublicKey {
    type V = Seq<u8>;

    open spec fn view(&self) -> Seq<u8> {
        self.bytes@
    }
}

impl PublicKey {
    /// Wraps the given key bytes.
    pub fn new(bytes: [u8; 32]) -> (r: PublicKey)
        ensures
            r@ == bytes@,
    {
        PublicKey { bytes }
    }

    /// Byte-for-byte comparison of two public keys.
    pub fn equals(&self, other: &PublicKey) -> (r: bool)
        ensures
            r <==> self@ == other@,
    {
        bytes_eq(self.bytes.as_slice(), other.bytes.as_slice())
    }
}

/// A 32-byte secret signing key (an Ed25519 seed).
#[derive(Clone)]
pub struct SecretKey {
    pub bytes: [u8; 32],
}

impl View for SecretKey {
    type V = Seq<u8>;

    open spec fn view(&self) -> Seq<u8> {
        self.bytes@
    }
}

impl SecretKey {
    /// Wraps the given key bytes.
    pub fn new(bytes: [u8; 32]) -> (r: SecretKey)
        ensures
            r@ == bytes@,
    {
        SecretKey { bytes }
    }
}

/// A 64-byte detached signature.
#[derive(Clone, Copy, Debug, PartialEq, Eq, Hash)]
pub struct Signature {
    pub bytes: [u8; 64],
}

impl View for Signature {
    type V = Seq<u8>;

    open spec fn view(&self) -> Seq<u8> {
        self.bytes@
    }
}

impl Signature {
    /// Wraps the given signature bytes.
    pub fn new(bytes: [u8; 64]) -> (r: Signature)
        ensures
            r@ == bytes@,
    {
        Signature { bytes }
    }

    /// Byte-for-byte comparison of two signatures.
    pub fn equals(&self, other: &Signature) -> (r: bool)
        ensures
            r <==> self@ == other@,
    {
        bytes_eq(self.bytes.as_slice(), other.bytes.as_slice())
    }
}

/// Byte-for-byte comparison of two byte slices.
pub fn bytes_eq(a: &[u8], b: &[u8]) -> (r: bool)
    ensures
        r <==> a@ == b@,
{
    if a.len() != b.len() {
        return false;
    }
    let mut i: usize = 0;
    while i < a.len()
        invariant
            0 <= i <= a@.len(),
            a@.len() == b@.len(),
            forall|j: int| 0 <= j < i ==> a@[j] == b@[j],
        decreases a@.len() - i,
    {
        if a[i] != b[i] {
            return false;
        }
        i = i + 1;
    }
    proof {
        assert(a@ =~= b@);
    }
    true
}

/// The SHA3-256 digest of a byte sequence.
pub uninterp spec fn sha3_256_of(input: Seq<u8>) -> Seq<u8>;

/// The detached Ed25519 signature over a payload under a secret key.
pub uninterp spec fn signature_of(payload: Seq<u8>, secret: Seq<u8>) -> Seq<u8>;

/// Whether a detached signature cryptographically verifies over a payload
/// under a public key.
pub uninterp spec fn signature_checks(signature: Seq<u8>, payload: Seq<u8>, public: Seq<u8>) -> bool;

/// Relies on tiny_keccak's `Sha3::v256` / `update` / `finalize`: the SHA3-256
/// digest of the input bytes, 32 bytes long, a function of the input alone.
#[verifier::external_body]
pub fn sha3_256(input: &Vec<u8>) -> (r: [u8; 32])
    ensures
        r@ == sha3_256_of(input@),
{
    let mut hasher = tiny_keccak::Sha3::v256();
    tiny_keccak::Hasher::update(&mut hasher, input.as_slice());
    let mut out: [u8; 32] = [0; 32];
    tiny_keccak::Hasher::finalize(hasher, &mut out);
    out
}

/// Relies on ed25519_dalek's `SigningKey::from_bytes` and `Signer::sign`:
/// Ed25519 signing is deterministic (RFC 8032), so the 64-byte detached
/// signature is a function of the payload and the secret key alone.
#[verifier::external_body]
pub fn sign_detached(payload: &Vec<u8>, secret: &SecretKey) -> (r: Signature)
    ensures
        r@ == signature_of(payload@, secret@),
{
    let key = ed25519_dalek::SigningKey::from_bytes(&secret.bytes);
    let sig = ed25519_dalek::Signer::sign(&key, payload.as_slice());
    Signature { bytes: sig.to_bytes() }
}

/// Relies on ed25519_dalek's `VerifyingKey::from_bytes` and `Verifier::verify`:
/// verification is deterministic, so the outcome is a function of the
/// signature, payload and public-key bytes alone. Key bytes that decode to no
/// valid curve point verify nothing.
#[verifier::external_body]
pub fn verify_detached(signature: &Signature, payload: &Vec<u8>, public: &PublicKey) -> (r: bool)
    ensures
        r == signature_checks(signature@, payload@, public@),
{
    let sig = ed25519_dalek::Signature::from_bytes(&signature.bytes);
    match ed25519_dalek::VerifyingKey::from_bytes(&public.bytes) {
        Ok(key) => ed25519_dalek::Verifier::verify(&key, payload.as_slice(), &sig).is_ok(),
        Err(_) => false,
    }
}

} // verus!
