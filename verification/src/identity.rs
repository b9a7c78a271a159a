//! A node's identity: a label, key material, and the identifier derived from
//! the public key.
//!
//! The identifier is the digest of the public key, so it depends on the key
//! material alone. The label is a nickname that may change; the identifier
//! and the keys never do. The secret seed stays inside the identity: others
//! get the public key and signatures.

use crate::digest::{digest_text, sha256};
use crate::ed25519;
use crate::entropy::draw_seed;
use crate::error::Error;
use ed25519_dalek::SignatureError;
use vstd::prelude::*;

verus! {

/// The identifier that belongs to a public key: the key's digest.
pub open spec fn identifier_of(public_key: Seq<u8>) -> Seq<char> {
    digest_text(public_key)
}

/// A local identity.
pub struct Identity {
    label: String,
    seed: [u8; 32],
    public_key: [u8; 32],
    identifier: String,
}

/// What an identity holds. The seed is named here for contracts only; no
/// executable function hands it out.
pub struct IdentityView {
    pub label: Seq<char>,
    pub seed: Seq<u8>,
    pub public_key: Seq<u8>,
    pub identifier: Seq<char>,
}

impl View for Identity {
    type V = IdentityView;

    closed spec fn view(&self) -> IdentityView {
        IdentityView {
            label: self.label@,
            seed: self.seed@,
            public_key: self.public_key@,
            identifier: self.identifier@,
        }
    }
}

impl IdentityView {
    /// The public key is the seed's, and the identifier is the public key's.
    pub open spec fn wf(self) -> bool {
        &&& self.public_key == ed25519::public_key_of(self.seed)
        &&& self.identifier == identifier_of(self.public_key)
    }
}

/// What a signing attempt comes to in this library's terms: the signature, or
/// a signing failure.
pub fn signed(outcome: Result<[u8; 64], SignatureError>) -> (signed: Result<[u8; 64], Error>)
    ensures
        match outcome {
            Ok(signature) => signed == Ok::<[u8; 64], Error>(signature),
            Err(_) => signed == Err::<[u8; 64], Error>(Error::Signing),
        },
{
    match outcome {
        Ok(signature) => Ok(signature),
        Err(_) => Err(Error::Signing),
    }
}

impl Identity {
    /// Every identity is well-formed: there is no way to make one whose
    /// identifier does not belong to its keys.
    #[verifier::type_invariant]
    spec fn inv(self) -> bool {
        self@.wf()
    }

    /// The identity whose key material is derived from `seed`. The same seed
    /// always gives the same keys and identifier, whatever the label.
    pub fn from_seed(label: String, seed: [u8; 32]) -> (identity: Identity)
        ensures
            identity@.wf(),
            identity@.label == label@,
            identity@.seed == seed@,
    {
        let public_key = ed25519::derive_public_key(&seed);
        let identifier = sha256(public_key.as_slice());
        Identity { label, seed, public_key, identifier }
    }

    /// The identity that a draw from the random source comes to: one made from
    /// the seed, or a failure where no seed could be drawn.
    pub fn from_entropy(label: String, drawn: Option<[u8; 32]>) -> (made: Result<Identity, Error>)
        ensures
            match drawn {
                Some(seed) => {
                    &&& made matches Ok(identity)
                    &&& identity@.wf()
                    &&& identity@.label == label@
                    &&& identity@.seed == seed@
                },
                None => made matches Err(error) && error == Error::Signing,
            },
    {
        match drawn {
            Some(seed) => Ok(Identity::from_seed(label, seed)),
            None => Err(Error::Signing),
        }
    }

    /// A new identity on key material drawn from the operating system's
    /// random source. Each call draws anew, so nothing is promised of the
    /// keys but that the identifier belongs to them.
    pub fn new(label: String) -> (made: Result<Identity, Error>)
        ensures
            made matches Ok(identity) ==> identity@.wf() && identity@.label == label@,
            made matches Err(error) ==> error == Error::Signing,
    {
        Identity::from_entropy(label, draw_seed())
    }

    /// The nickname.
    pub fn label(&self) -> (label: &String)
        ensures
            label@ == self@.label,
    {
        &self.label
    }

    /// The identifier, which is the one that belongs to the public key.
    pub fn identifier(&self) -> (identifier: &String)
        ensures
            identifier@ == self@.identifier,
            self@.wf(),
    {
        proof {
            use_type_invariant(self);
        }
        &self.identifier
    }

    /// The public key, which is the one that belongs to the seed.
    pub fn public_key(&self) -> (public_key: [u8; 32])
        ensures
            public_key@ == self@.public_key,
            self@.wf(),
    {
        proof {
            use_type_invariant(self);
        }
        self.public_key
    }

    /// Changes the nickname and nothing else.
    pub fn set_label(&mut self, label: String)
        ensures
            final(self)@ == (IdentityView { label: label@, ..old(self)@ }),
    {
        proof {
            use_type_invariant(&*self);
        }
        self.label = label;
    }

    /// Signs `message` with the identity's key. Signing succeeds, and the
    /// signature is the one the seed determines and verifies under the public
    /// key.
    pub fn sign(&self, message: &[u8]) -> (signed: Result<[u8; 64], Error>)
        ensures
            signed matches Ok(signature) && {
                &&& signature@ == ed25519::signature_of(self@.seed, message@)
                &&& ed25519::accepts(self@.public_key, message@, signature@)
            },
    {
        proof {
            use_type_invariant(self);
        }
        signed(ed25519::try_sign(&self.seed, message))
    }
}

/// The identifier follows from the key material, not from the label: two
/// identities on the same seed have the same public key and identifier.
pub proof fn identifier_ignores_label(first: IdentityView, second: IdentityView)
    requires
        first.wf(),
        second.wf(),
        first.seed == second.seed,
    ensures
        first.public_key == second.public_key,
        first.identifier == second.identifier,
{
}

} // verus!
