//! The enclave's Ed25519 signing identity, through fastcrypto.

use fastcrypto::ed25519::{Ed25519KeyPair, Ed25519PublicKey, Ed25519Signature};
use fastcrypto::traits::{Signer, ToFromBytes, VerifyingKey, KeyPair};
use vstd::prelude::*;

verus! {

#[verifier::external_type_specification]
#[verifier::external_body]
pub struct ExEd25519KeyPair(Ed25519KeyPair);

/// Whether `signature` is a valid Ed25519 signature of `message` under the
/// encoded `public_key`.
pub uninterp spec fn ed25519_verifies(
    public_key: Seq<u8>,
    message: Seq<u8>,
    signature: Seq<u8>,
) -> bool;

/// Relies on fastcrypto's `Signer::sign` for `Ed25519KeyPair` and on
/// `KeyPair::public`: the 64-byte signature of `message` by the pair, and the
/// pair's 32-byte public key, under which that signature verifies.
#[verifier::external_body]
pub(crate) fn sign_message(keypair: &Ed25519KeyPair, message: &[u8]) -> (r: (Vec<u8>, Vec<u8>))
    ensures
        r.0@.len() == 64,
        r.1@.len() == 32,
        ed25519_verifies(r.1@, message@, r.0@),
{
    (keypair.sign(message).as_bytes().to_vec(), keypair.public().as_bytes().to_vec())
}

/// Relies on fastcrypto's `Ed25519PublicKey::from_bytes`,
/// `Ed25519Signature::from_bytes` and `VerifyingKey::verify`: whether the
/// signature verifies; a key or signature that does not decode does not.
#[verifier::external_body]
pub(crate) fn verify_signature(public_key: &[u8], message: &[u8], signature: &[u8]) -> (r: bool)
    ensures
        r == ed25519_verifies(public_key@, message@, signature@),
{
    match (Ed25519PublicKey::from_bytes(public_key), Ed25519Signature::from_bytes(signature)) {
        (Ok(pk), Ok(sig)) => pk.verify(message, &sig).is_ok(),
        _ => false,
    }
}

} // verus!
