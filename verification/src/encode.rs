//! Big-endian encoding of record identifiers and the curve-type prefix
//! convention for stored public keys.

use vstd::prelude::*;

verus! {

/// The big-endian 8-byte encoding of a 64-bit identifier.
pub open spec fn spec_u64_be_bytes(x: u64) -> Seq<u8> {
    seq![
        ((x >> 56) & 0xff) as u8,
        ((x >> 48) & 0xff) as u8,
        ((x >> 40) & 0xff) as u8,
        ((x >> 32) & 0xff) as u8,
        ((x >> 24) & 0xff) as u8,
        ((x >> 16) & 0xff) as u8,
        ((x >> 8) & 0xff) as u8,
        (x & 0xff) as u8,
    ]
}

/// A stored public key carries a one-byte curve-type prefix; the raw key
/// material used for signature verification is everything after it.
pub open spec fn strip_curve_type(key: Seq<u8>) -> Seq<u8> {
    if key.len() >= 1 {
        key.skip(1)
    } else {
        key
    }
}

pub fn u64_to_be_bytes(x: u64) -> (r: Vec<u8>)
    ensures
        r@ == spec_u64_be_bytes(x),
{
    proof {
        assert((x >> 56) & 0xff < 256 && (x >> 48) & 0xff < 256 && (x >> 40) & 0xff < 256
            && (x >> 32) & 0xff < 256 && (x >> 24) & 0xff < 256 && (x >> 16) & 0xff < 256
            && (x >> 8) & 0xff < 256 && x & 0xff < 256) by (bit_vector);
    }
    let mut r: Vec<u8> = Vec::new();
    r.push(((x >> 56) & 0xff) as u8);
    r.push(((x >> 48) & 0xff) as u8);
    r.push(((x >> 40) & 0xff) as u8);
    r.push(((x >> 32) & 0xff) as u8);
    r.push(((x >> 24) & 0xff) as u8);
    r.push(((x >> 16) & 0xff) as u8);
    r.push(((x >> 8) & 0xff) as u8);
    r.push((x & 0xff) as u8);
    proof {
        assert(r@ =~= spec_u64_be_bytes(x));
    }
    r
}

/// An owned copy of a byte string.
pub fn clone_bytes(b: &Vec<u8>) -> (r: Vec<u8>)
    ensures
        r@ == b@,
{
    let mut r: Vec<u8> = Vec::new();
    let mut i: usize = 0;
    while i < b.len()
        invariant
            i <= b@.len(),
            r@ == b@.subrange(0, i as int),
        decreases b@.len() - i,
    {
        r.push(b[i]);
        proof {
            assert(r@ =~= b@.subrange(0, i + 1 as int));
        }
        i += 1;
    }
    proof {
        assert(r@ =~= b@);
    }
    r
}

/// Copies everything after the one-byte curve-type prefix of a stored key.
pub fn strip_curve_prefix(key: &Vec<u8>) -> (r: Vec<u8>)
    ensures
        r@ == strip_curve_type(key@),
{
    let mut r: Vec<u8> = Vec::new();
    if key.len() == 0 {
        proof {
            assert(r@ =~= strip_curve_type(key@));
        }
        return r;
    }
    let mut i: usize = 1;
    while i < key.len()
        invariant
            1 <= i <= key@.len(),
            r@ == key@.subrange(1, i as int),
        decreases key@.len() - i,
    {
        r.push(key[i]);
        proof {
            assert(r@ =~= key@.subrange(1, i + 1 as int));
        }
        i += 1;
    }
    proof {
        assert(r@ =~= strip_curve_type(key@));
    }
    r
}

} // verus!
