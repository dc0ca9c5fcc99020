//! Ed25519 signature checking, the sole cryptographic dependency of the
//! claim authorizer.

use vstd::prelude::*;

verus! {

/// Whether `sig` is a valid Ed25519 signature over `msg` under the raw
/// 32-byte public key `key`.  The meaning of this predicate is fixed by the
/// verifier of the `ed25519_dalek` crate: it depends on the three byte
/// strings alone, and nothing more is assumed of it here.
pub uninterp spec fn ed25519_valid(key: Seq<u8>, msg: Seq<u8>, sig: Seq<u8>) -> bool;

/// Relies on `ed25519_dalek::VerifyingKey::from_bytes` (rejects anything
/// but 32 bytes naming a decompressable curve point),
/// `ed25519_dalek::Signature::from_slice` (rejects anything but 64 bytes)
/// and `ed25519_dalek::Verifier::verify`, whose combined outcome is a
/// deterministic function of key, message and signature bytes.
#[verifier::external_body]
pub(crate) fn ed25519_verify(key: &Vec<u8>, msg: &Vec<u8>, sig: &Vec<u8>) -> (r: bool)
    ensures
        r == ed25519_valid(key@, msg@, sig@),
{
    let key_arr: &[u8; 32] = match key.as_slice().try_into() {
        Ok(a) => a,
        Err(_) => return false,
    };
    let vk = match ed25519_dalek::VerifyingKey::from_bytes(key_arr) {
        Ok(k) => k,
        Err(_) => return false,
    };
    let parsed = match ed25519_dalek::Signature::from_slice(sig.as_slice()) {
        Ok(s) => s,
        Err(_) => return false,
    };
    ed25519_dalek::Verifier::verify(&vk, msg.as_slice(), &parsed).is_ok()
}

} // verus!
