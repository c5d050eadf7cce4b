//! The boundary to the cryptographic verification primitive.
//!
//! The core is scheme-agnostic: it never looks inside a signature.  All it
//! asks of the primitive is a deterministic verdict on whether a signature
//! verifies for a message under a key, and that verdict is given a name,
//! [`sig_verifies`], that every contract of the library speaks of.

use vstd::prelude::*;

verus! {

/// Whether `signature` is a valid signature over `message` under the
/// verification key `key`.  The verdict of the external primitive, named so
/// that contracts can speak of it; it is a function of the three byte strings
/// alone.
pub uninterp spec fn sig_verifies(message: Seq<u8>, signature: Seq<u8>, key: Seq<u8>) -> bool;

/// Relies on secp256k1's `ecdsa::verify` (with `Message::from_digest`,
/// `ecdsa::Signature::from_compact` and `PublicKey::from_slice`): whether a
/// compact ECDSA signature verifies for a 32-byte message digest under a
/// serialized public key is a deterministic, side-effect-free function of
/// those three byte strings alone.  Bytes that do not parse as a digest,
/// signature or key never verify.
#[verifier::external_body]
pub(crate) fn verify_signature(message: &Vec<u8>, signature: &Vec<u8>, key: &Vec<u8>) -> (r: bool)
    ensures
        r == sig_verifies(message@, signature@, key@),
{
    let digest: [u8; 32] = match message.as_slice().try_into() {
        Ok(d) => d,
        Err(_) => return false,
    };
    let sig = match secp256k1::ecdsa::Signature::from_compact(signature.as_slice()) {
        Ok(s) => s,
        Err(_) => return false,
    };
    let pk = match secp256k1::PublicKey::from_slice(key.as_slice()) {
        Ok(k) => k,
        Err(_) => return false,
    };
    secp256k1::ecdsa::verify(&sig, secp256k1::Message::from_digest(digest), &pk).is_ok()
}

} // verus!
