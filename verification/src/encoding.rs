//! The canonical payload encoder.
//!
//! Produces the deterministic byte sequence that owners sign and that
//! verification recomputes. It is kept apart from any general wire codec so
//! that what gets cryptographically signed can never silently change.
//! Integers that identify a version are rendered as decimal text rather than
//! raw binary, a defence against cross-platform integer-encoding divergence;
//! variable-length fields are length-prefixed with eight little-endian bytes.

use vstd::prelude::*;

use crate::crypto::PublicKey;

verus! {

/// The decimal ASCII digits of a non-negative integer, most significant first.
pub open spec fn dec_digits(n: int) -> Seq<u8>
    recommends
        n >= 0,
    decreases n,
{
    if n < 10 {
        seq![(48 + n) as u8]
    } else {
        dec_digits(n / 10).push((48 + n % 10) as u8)
    }
}

/// The eight little-endian bytes of a 64-bit integer.
pub open spec fn u64_le_seq(n: u64) -> Seq<u8> {
    seq![
        (n as int % 256) as u8,
        (n as int / 256 % 256) as u8,
        (n as int / 65536 % 256) as u8,
        (n as int / 16777216 % 256) as u8,
        (n as int / 4294967296 % 256) as u8,
        (n as int / 1099511627776 % 256) as u8,
        (n as int / 281474976710656 % 256) as u8,
        (n as int / 72057594037927936 % 256) as u8,
    ]
}

/// A byte sequence preceded by its length as eight little-endian bytes.
pub open spec fn len_prefixed(bytes: Seq<u8>) -> Seq<u8> {
    u64_le_seq(bytes.len() as u64) + bytes
}

/// The bytes of a key sequence, each key contributing its 32 bytes in order.
pub open spec fn keys_bytes(keys: Seq<PublicKey>) -> Seq<u8>
    decreases keys.len(),
{
    if keys.len() == 0 {
        Seq::empty()
    } else {
        keys_bytes(keys.drop_last()) + keys.last()@
    }
}

/// The canonical signing payload of one record version: type tag as decimal
/// text, name, data, previous then current owner keys, and version as decimal
/// text, in that fixed order.
pub open spec fn canonical_payload(
    type_tag: u64,
    name: Seq<u8>,
    data: Seq<u8>,
    previous_owner_keys: Seq<PublicKey>,
    current_owner_keys: Seq<PublicKey>,
    version: u64,
) -> Seq<u8> {
    len_prefixed(dec_digits(type_tag as int)) + name + len_prefixed(data)
        + u64_le_seq(previous_owner_keys.len() as u64) + keys_bytes(previous_owner_keys)
        + u64_le_seq(current_owner_keys.len() as u64) + keys_bytes(current_owner_keys)
        + len_prefixed(dec_digits(version as int))
}

/// Appends the decimal digits of `n` to `out`.
pub fn push_decimal(out: &mut Vec<u8>, n: u64)
    ensures
        final(out)@ == old(out)@ + dec_digits(n as int),
    decreases n,
{
    if n < 10 {
        out.push(48 + n as u8);
    } else {
        push_decimal(out, n / 10);
        out.push(48 + (n % 10) as u8);
    }
    proof {
        assert(out@ =~= old(out)@ + dec_digits(n as int));
    }
}

/// The decimal text of a 64-bit integer.
pub fn u64_to_decimal(n: u64) -> (r: Vec<u8>)
    ensures
        r@ == dec_digits(n as int),
{
    let mut digits: Vec<u8> = Vec::new();
    push_decimal(&mut digits, n);
    proof {
        assert(digits@ =~= dec_digits(n as int));
    }
    digits
}

/// Appends the eight little-endian bytes of `n` to `out`.
pub fn push_le8(out: &mut Vec<u8>, n: u64)
    ensures
        final(out)@ == old(out)@ + u64_le_seq(n),
{
    out.push((n % 256) as u8);
    out.push((n / 256 % 256) as u8);
    out.push((n / 65536 % 256) as u8);
    out.push((n / 16777216 % 256) as u8);
    out.push((n / 4294967296 % 256) as u8);
    out.push((n / 1099511627776 % 256) as u8);
    out.push((n / 281474976710656 % 256) as u8);
    out.push((n / 72057594037927936 % 256) as u8);
    proof {
        assert(out@ =~= old(out)@ + u64_le_seq(n));
    }
}

/// Appends a 32-byte identifier to `out`.
pub fn push_bytes32(out: &mut Vec<u8>, bytes: &[u8; 32])
    ensures
        final(out)@ == old(out)@ + bytes@,
{
    let mut i: usize = 0;
    while i < 32
        invariant
            0 <= i <= 32,
            out@ == old(out)@ + bytes@.take(i as int),
        decreases 32 - i,
    {
        out.push(bytes[i]);
        proof {
            assert(out@ =~= old(out)@ + bytes@.take(i as int + 1));
        }
        i = i + 1;
    }
    proof {
        assert(bytes@.take(32) =~= bytes@);
    }
}

/// Appends the bytes of `data` to `out`.
pub fn push_bytes(out: &mut Vec<u8>, data: &Vec<u8>)
    ensures
        final(out)@ == old(out)@ + data@,
{
    let mut i: usize = 0;
    while i < data.len()
        invariant
            0 <= i <= data@.len(),
            out@ == old(out)@ + data@.take(i as int),
        decreases data@.len() - i,
    {
        out.push(data[i]);
        proof {
            assert(out@ =~= old(out)@ + data@.take(i as int + 1));
        }
        i = i + 1;
    }
    proof {
        assert(data@.take(data@.len() as int) =~= data@);
    }
}

/// Appends every key's bytes to `out`, in order.
pub fn push_keys(out: &mut Vec<u8>, keys: &Vec<PublicKey>)
    ensures
        final(out)@ == old(out)@ + keys_bytes(keys@),
{
    let mut i: usize = 0;
    while i < keys.len()
        invariant
            0 <= i <= keys@.len(),
            out@ == old(out)@ + keys_bytes(keys@.take(i as int)),
        decreases keys@.len() - i,
    {
        push_bytes32(out, &keys[i].bytes);
        proof {
            assert(keys@.take(i as int + 1).drop_last() =~= keys@.take(i as int));
            assert(keys@.take(i as int + 1).last() == keys@[i as int]);
            assert(out@ =~= old(out)@ + keys_bytes(keys@.take(i as int + 1)));
        }
        i = i + 1;
    }
    proof {
        assert(keys@.take(keys@.len() as int) =~= keys@);
    }
}

/// Builds the canonical signing payload for one record version.
#[verifier::rlimit(50)]
pub fn encode_payload(
    type_tag: u64,
    name: &[u8; 32],
    data: &Vec<u8>,
    previous_owner_keys: &Vec<PublicKey>,
    current_owner_keys: &Vec<PublicKey>,
    version: u64,
) -> (r: Vec<u8>)
    ensures
        r@ == canonical_payload(
            type_tag,
            name@,
            data@,
            previous_owner_keys@,
            current_owner_keys@,
            version,
        ),
{
    let mut out: Vec<u8> = Vec::new();
    let tag_digits = u64_to_decimal(type_tag);
    push_le8(&mut out, tag_digits.len() as u64);
    push_bytes(&mut out, &tag_digits);
    push_bytes32(&mut out, name);
    push_le8(&mut out, data.len() as u64);
    push_bytes(&mut out, data);
    push_le8(&mut out, previous_owner_keys.len() as u64);
    push_keys(&mut out, previous_owner_keys);
    push_le8(&mut out, current_owner_keys.len() as u64);
    push_keys(&mut out, current_owner_keys);
    let version_digits = u64_to_decimal(version);
    push_le8(&mut out, version_digits.len() as u64);
    push_bytes(&mut out, &version_digits);
    proof {
        assert(out@ =~= canonical_payload(
            type_tag,
            name@,
            data@,
            previous_owner_keys@,
            current_owner_keys@,
            version,
        ));
    }
    out
}

/// The little-endian encoding loses nothing: equal encodings come only from
/// equal integers.
pub proof fn lemma_u64_le_seq_injective(a: u64, b: u64)
    requires
        u64_le_seq(a) == u64_le_seq(b),
    ensures
        a == b,
{
    assert(u64_le_seq(a)[0] == u64_le_seq(b)[0]);
    assert(u64_le_seq(a)[1] == u64_le_seq(b)[1]);
    assert(u64_le_seq(a)[2] == u64_le_seq(b)[2]);
    assert(u64_le_seq(a)[3] == u64_le_seq(b)[3]);
    assert(u64_le_seq(a)[4] == u64_le_seq(b)[4]);
    assert(u64_le_seq(a)[5] == u64_le_seq(b)[5]);
    assert(u64_le_seq(a)[6] == u64_le_seq(b)[6]);
    assert(u64_le_seq(a)[7] == u64_le_seq(b)[7]);
    assert(a == b) by (bit_vector)
        requires
            a % 256 == b % 256,
            a / 256 % 256 == b / 256 % 256,
            a / 65536 % 256 == b / 65536 % 256,
            a / 16777216 % 256 == b / 16777216 % 256,
            a / 4294967296 % 256 == b / 4294967296 % 256,
            a / 1099511627776 % 256 == b / 1099511627776 % 256,
            a / 281474976710656 % 256 == b / 281474976710656 % 256,
            a / 72057594037927936 % 256 == b / 72057594037927936 % 256,
    ;
}

} // verus!
