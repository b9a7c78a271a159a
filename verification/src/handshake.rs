//! The handshake with a relay: how a node proves that it controls its
//! identifier, and how a relay checks the proof.
//!
//! The relay sends a challenge. The node signs the challenge together with
//! its identifier and answers with the identifier, the public key and the
//! signature. The key never leaves the node. The relay accepts an answer
//! whose identifier belongs to the public key and whose signature verifies.

use crate::claim::{framed, push_framed};
use crate::digest::sha256;
use crate::ed25519;
use crate::error::Error;
use crate::identity::{identifier_of, Identity};
use crate::tunnel::Nonce;
use vstd::prelude::*;

verus! {

/// The byte that every signed challenge starts with.
pub const CHALLENGE_TAG: u8 = 0x54;

/// The bytes that answer a challenge when signed: the tag, the identifier
/// and the challenge.
pub open spec fn challenge_message(identifier: Seq<char>, nonce: Seq<u8>) -> Seq<u8> {
    seq![CHALLENGE_TAG] + framed(identifier) + nonce
}

/// An answer to a challenge.
pub struct Answer {
    identifier: String,
    public_key: [u8; 32],
    signature: [u8; 64],
}

/// What an answer holds.
pub struct AnswerView {
    pub identifier: Seq<char>,
    pub public_key: Seq<u8>,
    pub signature: Seq<u8>,
}

impl View for Answer {
    type V = AnswerView;

    closed spec fn view(&self) -> AnswerView {
        AnswerView {
            identifier: self.identifier@,
            public_key: self.public_key@,
            signature: self.signature@,
        }
    }
}

impl AnswerView {
    /// Whether the answer proves control of its identifier on the challenge
    /// `nonce`: the identifier is the public key's, and the signature on the
    /// challenge verifies under the key.
    pub open spec fn proves(self, nonce: Seq<u8>) -> bool {
        &&& self.identifier == identifier_of(self.public_key)
        &&& ed25519::accepts(
            self.public_key,
            challenge_message(self.identifier, nonce),
            self.signature,
        )
    }
}

/// Writes out the bytes that are signed in answer to a challenge.
pub fn challenge_bytes(identifier: &str, nonce: &Nonce) -> (bytes: Vec<u8>)
    ensures
        bytes@ == challenge_message(identifier@, nonce@),
{
    let mut bytes: Vec<u8> = Vec::new();
    bytes.push(CHALLENGE_TAG);
    push_framed(&mut bytes, identifier);
    let ghost before = bytes@;
    bytes.extend_from_slice(nonce.as_slice());
    assert(bytes@ =~= before + nonce@);
    bytes
}

impl Answer {
    /// An answer made of its parts, as a relay receives it.
    pub fn from_parts(identifier: String, public_key: [u8; 32], signature: [u8; 64]) -> (answer:
        Answer)
        ensures
            answer@ == (AnswerView {
                identifier: identifier@,
                public_key: public_key@,
                signature: signature@,
            }),
    {
        Answer { identifier, public_key, signature }
    }

    /// The identifier that the answer speaks for.
    pub fn identifier(&self) -> (identifier: &String)
        ensures
            identifier@ == self@.identifier,
    {
        &self.identifier
    }

    /// The public key.
    pub fn public_key(&self) -> (public_key: [u8; 32])
        ensures
            public_key@ == self@.public_key,
    {
        self.public_key
    }

    /// The signature on the challenge.
    pub fn signature(&self) -> (signature: [u8; 64])
        ensures
            signature@ == self@.signature,
    {
        self.signature
    }
}

/// The answer that a signing attempt comes to.
pub fn sealed_answer(identity: &Identity, signed: Result<[u8; 64], Error>) -> (answer: Result<
    Answer,
    Error,
>)
    ensures
        match signed {
            Ok(signature) => answer matches Ok(made) && made@ == (AnswerView {
                identifier: identity@.identifier,
                public_key: identity@.public_key,
                signature: signature@,
            }),
            Err(error) => answer matches Err(failure) && failure == error,
        },
{
    match signed {
        Ok(signature) => Ok(
            Answer::from_parts(identity.identifier().clone(), identity.public_key(), signature),
        ),
        Err(error) => Err(error),
    }
}

/// Answers the relay's challenge for `identity`. Answering succeeds; the
/// answer is determined by the identity and the challenge, and it proves
/// control of the identifier.
pub fn answer_challenge(identity: &Identity, nonce: &Nonce) -> (answer: Result<Answer, Error>)
    ensures
        answer matches Ok(made) && made@ == (AnswerView {
            identifier: identity@.identifier,
            public_key: identity@.public_key,
            signature: ed25519::signature_of(
                identity@.seed,
                challenge_message(identity@.identifier, nonce@),
            ),
        }),
        answer matches Ok(made) ==> made@.proves(nonce@),
{
    let message = challenge_bytes(identity.identifier().as_str(), nonce);
    let signed = identity.sign(message.as_slice());
    sealed_answer(identity, signed)
}

/// Whether `answer` proves control of its identifier on the challenge
/// `nonce`, as the relay decides it.
pub fn check_answer(answer: &Answer, nonce: &Nonce) -> (accepted: bool)
    ensures
        accepted == answer@.proves(nonce@),
{
    let identifier = sha256(answer.public_key.as_slice());
    if answer.identifier != identifier {
        return false;
    }
    let message = challenge_bytes(answer.identifier.as_str(), nonce);
    ed25519::verify(&answer.public_key, message.as_slice(), &answer.signature)
}

/// What is signed in answer to a challenge is never what is signed as a
/// claim, whatever the relay sends as its challenge.
pub proof fn challenge_is_no_claim(
    identifier: Seq<char>,
    nonce: Seq<u8>,
    subject: Seq<char>,
    digest: Seq<char>,
    issued_at: u64,
    expires_at: Option<u64>,
)
    ensures
        challenge_message(identifier, nonce) != crate::claim::payload(
            subject,
            digest,
            issued_at,
            expires_at,
        ),
{
    let challenge = challenge_message(identifier, nonce);
    let claim = crate::claim::payload(subject, digest, issued_at, expires_at);
    assert(challenge[0] == CHALLENGE_TAG);
    assert(claim[0] == crate::claim::CLAIM_TAG);
}

} // verus!
