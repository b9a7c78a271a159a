//! Ed25519 signatures, made and checked by the `ed25519-dalek` crate.
//!
//! Nothing in this module is proved. Each function hands byte arrays to the
//! crate and byte arrays back, and its contract gives the crate's answer a
//! name, so that the rest of the library can say exactly which key, which
//! signature and which verdict it means.

use ed25519_dalek::{Signature, SignatureError, Signer, SigningKey, Verifier, VerifyingKey};
use vstd::prelude::*;

verus! {

/// The error of the `signature` crate, as `ed25519-dalek` hands it on.
#[verifier::external_type_specification]
#[verifier::external_body]
pub struct ExSignatureError(SignatureError);

/// The public key that belongs to a 32-byte secret seed.
pub uninterp spec fn public_key_of(seed: Seq<u8>) -> Seq<u8>;

/// The signature that a seed gives a message. Ed25519 signs without
/// randomness, so the seed and the message determine it.
pub uninterp spec fn signature_of(seed: Seq<u8>, message: Seq<u8>) -> Seq<u8>;

/// Whether a signature on a message verifies under a public key.
pub uninterp spec fn accepts(public_key: Seq<u8>, message: Seq<u8>, signature: Seq<u8>) -> bool;

/// Derives the public key of a seed: `SigningKey::from_bytes`, then
/// `SigningKey::verifying_key`, as bytes.
#[verifier::external_body]
pub(crate) fn derive_public_key(seed: &[u8; 32]) -> (public_key: [u8; 32])
    ensures
        public_key@ == public_key_of(seed@),
{
    SigningKey::from_bytes(seed).verifying_key().to_bytes()
}

/// Signs a message with `Signer::try_sign` on the signing key of a seed. The
/// contract claims three things. The call succeeds: the crate's signer for
/// this key type returns `Ok` on every path. The signature is the one that
/// the seed and the message determine. And it verifies under the seed's
/// public key, which is what the crate's documentation shows of every
/// signature it makes.
#[verifier::external_body]
pub(crate) fn try_sign(seed: &[u8; 32], message: &[u8]) -> (signed: Result<
    [u8; 64],
    SignatureError,
>)
    ensures
        signed is Ok,
        signed matches Ok(signature) ==> signature@ == signature_of(seed@, message@),
        signed matches Ok(signature) ==> accepts(public_key_of(seed@), message@, signature@),
{
    match SigningKey::from_bytes(seed).try_sign(message) {
        Ok(signature) => Ok(signature.to_bytes()),
        Err(error) => Err(error),
    }
}

/// Checks a signature with `Verifier::verify` on the verifying key that
/// `VerifyingKey::from_bytes` makes of the public key. Bytes that are no
/// public key verify nothing.
#[verifier::external_body]
pub(crate) fn verify(public_key: &[u8; 32], message: &[u8], signature: &[u8; 64]) -> (accepted:
    bool)
    ensures
        accepted == accepts(public_key@, message@, signature@),
{
    match VerifyingKey::from_bytes(public_key) {
        Ok(key) => key.verify(message, &Signature::from_bytes(signature)).is_ok(),
        Err(_) => false,
    }
}

} // verus!
