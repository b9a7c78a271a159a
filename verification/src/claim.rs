//! Claims: signed statements that bind an identifier to a content digest for
//! a span of time.
//!
//! A claim names its subject (the issuer's identifier), the digest it speaks
//! of, when it was issued and, optionally, when it expires. The signature
//! covers all four, written out so that no two different claims are signed as
//! the same bytes. Checking a claim never changes it and never fails: a claim
//! that does not hold is simply not valid.

use crate::bytes::{be64, lemma_be64_injective, push_be64};
use crate::digest::sha256;
use crate::ed25519;
use crate::error::Error;
use crate::identity::{identifier_of, Identity};
use vstd::prelude::*;
use vstd::utf8::{encode_utf8, encode_utf8_decode_utf8};

verus! {

/// A signed claim.
pub struct Claim {
    subject: String,
    digest: String,
    issued_at: u64,
    expires_at: Option<u64>,
    signature: [u8; 64],
}

/// What a claim holds.
pub struct ClaimView {
    pub subject: Seq<char>,
    pub digest: Seq<char>,
    pub issued_at: u64,
    pub expires_at: Option<u64>,
    pub signature: Seq<u8>,
}

impl View for Claim {
    type V = ClaimView;

    closed spec fn view(&self) -> ClaimView {
        ClaimView {
            subject: self.subject@,
            digest: self.digest@,
            issued_at: self.issued_at,
            expires_at: self.expires_at,
            signature: self.signature@,
        }
    }
}

/// The bytes of a text with their number in front.
pub open spec fn framed(text: Seq<char>) -> Seq<u8> {
    be64(encode_utf8(text).len() as u64) + encode_utf8(text)
}

/// An optional time: a zero byte for none, a one byte and the time otherwise.
pub open spec fn optional_time(time: Option<u64>) -> Seq<u8> {
    match time {
        Some(at) => seq![1u8] + be64(at),
        None => seq![0u8],
    }
}

/// The byte that every signed claim starts with. What an identity signs for
/// another purpose starts with another byte, so that no signature made there
/// is the signature of a claim.
pub const CLAIM_TAG: u8 = 0x43;

/// The bytes that are signed: the tag, then subject, digest, time of issue
/// and expiry.
pub open spec fn payload(
    subject: Seq<char>,
    digest: Seq<char>,
    issued_at: u64,
    expires_at: Option<u64>,
) -> Seq<u8> {
    seq![CLAIM_TAG] + framed(subject) + framed(digest) + be64(issued_at) + optional_time(
        expires_at,
    )
}

/// When a claim issued at `issued_at` to live `ttl` seconds expires: at their
/// sum, or at the largest time there is where the sum is beyond it. A claim
/// without a time to live does not expire.
pub open spec fn expiry(issued_at: u64, ttl: Option<u64>) -> Option<u64> {
    match ttl {
        Some(seconds) => Some(
            if issued_at + seconds > u64::MAX {
                u64::MAX
            } else {
                (issued_at + seconds) as u64
            },
        ),
        None => None,
    }
}

impl ClaimView {
    /// The bytes that this claim's signature covers.
    pub open spec fn payload(self) -> Seq<u8> {
        payload(self.subject, self.digest, self.issued_at, self.expires_at)
    }

    /// Whether the claim has an expiry and `now` is past it.
    pub open spec fn expired_at(self, now: u64) -> bool {
        self.expires_at matches Some(end) && now > end
    }

    /// Whether the claim holds at `now` under `public_key`: the subject is the
    /// key's identifier, the signature verifies under the key, and the claim
    /// has not expired.
    pub open spec fn valid_at(self, public_key: Seq<u8>, now: u64) -> bool {
        &&& self.subject == identifier_of(public_key)
        &&& ed25519::accepts(public_key, self.payload(), self.signature)
        &&& !self.expired_at(now)
    }
}

/// Appends a text with the number of its bytes in front.
pub fn push_framed(out: &mut Vec<u8>, text: &str)
    ensures
        final(out)@ == old(out)@ + framed(text@),
{
    let bytes = text.as_bytes();
    push_be64(out, bytes.len() as u64);
    let ghost before = out@;
    out.extend_from_slice(bytes);
    assert(out@ =~= before + bytes@);
    assert(out@ =~= old(out)@ + framed(text@));
}

/// Writes out the bytes that are signed.
pub fn claim_payload(subject: &str, digest: &str, issued_at: u64, expires_at: Option<u64>) -> (bytes:
    Vec<u8>)
    ensures
        bytes@ == payload(subject@, digest@, issued_at, expires_at),
{
    let mut bytes: Vec<u8> = Vec::new();
    bytes.push(CLAIM_TAG);
    push_framed(&mut bytes, subject);
    push_framed(&mut bytes, digest);
    push_be64(&mut bytes, issued_at);
    let ghost before = bytes@;
    match expires_at {
        Some(at) => {
            bytes.push(1u8);
            push_be64(&mut bytes, at);
        },
        None => {
            bytes.push(0u8);
        },
    }
    assert(bytes@ =~= before + optional_time(expires_at));
    assert(bytes@ =~= payload(subject@, digest@, issued_at, expires_at));
    bytes
}

impl Claim {
    /// A claim made of its parts, as one that came from elsewhere is.
    pub fn from_parts(
        subject: String,
        digest: String,
        issued_at: u64,
        expires_at: Option<u64>,
        signature: [u8; 64],
    ) -> (claim: Claim)
        ensures
            claim@ == (ClaimView {
                subject: subject@,
                digest: digest@,
                issued_at,
                expires_at,
                signature: signature@,
            }),
    {
        Claim { subject, digest, issued_at, expires_at, signature }
    }

    /// The identifier that the claim is about.
    pub fn subject(&self) -> (subject: &String)
        ensures
            subject@ == self@.subject,
    {
        &self.subject
    }

    /// The digest of what is claimed.
    pub fn digest(&self) -> (digest: &String)
        ensures
            digest@ == self@.digest,
    {
        &self.digest
    }

    /// When the claim was issued, in seconds.
    pub fn issued_at(&self) -> (issued_at: u64)
        ensures
            issued_at == self@.issued_at,
    {
        self.issued_at
    }

    /// When the claim expires, if it does.
    pub fn expires_at(&self) -> (expires_at: Option<u64>)
        ensures
            expires_at == self@.expires_at,
    {
        self.expires_at
    }

    /// The signature over the payload.
    pub fn signature(&self) -> (signature: [u8; 64])
        ensures
            signature@ == self@.signature,
    {
        self.signature
    }
}

/// The claim that a signing attempt comes to: the parts with the signature, or
/// the failure.
pub fn seal(
    subject: String,
    digest: String,
    issued_at: u64,
    expires_at: Option<u64>,
    signed: Result<[u8; 64], Error>,
) -> (sealed: Result<Claim, Error>)
    ensures
        match signed {
            Ok(signature) => sealed matches Ok(claim) && claim@ == (ClaimView {
                subject: subject@,
                digest: digest@,
                issued_at,
                expires_at,
                signature: signature@,
            }),
            Err(error) => sealed matches Err(failure) && failure == error,
        },
{
    match signed {
        Ok(signature) => Ok(Claim::from_parts(subject, digest, issued_at, expires_at, signature)),
        Err(error) => Err(error),
    }
}

/// Issues a claim by `identity` on `subject_digest` at time `now`, to live
/// `ttl` seconds, or for ever without one.
///
/// Issuing succeeds, and the claim is fully determined by the arguments.
/// Under the identity's public key it is valid at once and at every time up
/// to its expiry, and at no time after.
pub fn issue_claim(identity: &Identity, subject_digest: &str, now: u64, ttl: Option<u64>) -> (issued:
    Result<Claim, Error>)
    ensures
        issued matches Ok(claim) && claim@ == (ClaimView {
            subject: identity@.identifier,
            digest: subject_digest@,
            issued_at: now,
            expires_at: expiry(now, ttl),
            signature: ed25519::signature_of(
                identity@.seed,
                payload(identity@.identifier, subject_digest@, now, expiry(now, ttl)),
            ),
        }),
        issued matches Ok(claim) ==> forall|at: u64|
            claim@.valid_at(identity@.public_key, at) <==> !(#[trigger] claim@.expired_at(at)),
        issued matches Ok(claim) ==> claim@.valid_at(identity@.public_key, now),
{
    let expires_at = match ttl {
        Some(seconds) => Some(now.saturating_add(seconds)),
        None => None,
    };
    let message = claim_payload(identity.identifier().as_str(), subject_digest, now, expires_at);
    let signed = identity.sign(message.as_slice());
    seal(identity.identifier().clone(), subject_digest.to_owned(), now, expires_at, signed)
}

/// Whether `claim` holds at time `now` under `public_key`. Any claim and any
/// key may be asked about; what does not hold is answered with `false`.
pub fn verify_claim(claim: &Claim, public_key: &[u8; 32], now: u64) -> (valid: bool)
    ensures
        valid == claim@.valid_at(public_key@, now),
{
    if let Some(end) = claim.expires_at {
        if now > end {
            return false;
        }
    }
    let identifier = sha256(public_key.as_slice());
    if claim.subject != identifier {
        return false;
    }
    let message = claim_payload(
        claim.subject.as_str(),
        claim.digest.as_str(),
        claim.issued_at,
        claim.expires_at,
    );
    ed25519::verify(public_key, message.as_slice(), &claim.signature)
}

/// Two byte strings that start with a number's eight bytes agree only if the
/// numbers and what follows them agree.
proof fn lemma_split_be64(a: u64, rest_a: Seq<u8>, b: u64, rest_b: Seq<u8>)
    requires
        be64(a) + rest_a == be64(b) + rest_b,
    ensures
        a == b,
        rest_a == rest_b,
{
    let left = be64(a) + rest_a;
    let right = be64(b) + rest_b;
    assert(left.subrange(0, 8) =~= be64(a));
    assert(right.subrange(0, 8) =~= be64(b));
    lemma_be64_injective(a, b);
    assert(left.subrange(8, left.len() as int) =~= rest_a);
    assert(right.subrange(8, right.len() as int) =~= rest_b);
}

/// Two byte strings that start with a framed text agree only if the texts and
/// what follows them agree.
proof fn lemma_split_framed(a: Seq<char>, rest_a: Seq<u8>, b: Seq<char>, rest_b: Seq<u8>)
    requires
        encode_utf8(a).len() <= u64::MAX,
        encode_utf8(b).len() <= u64::MAX,
        framed(a) + rest_a == framed(b) + rest_b,
    ensures
        a == b,
        rest_a == rest_b,
{
    let bytes_a = encode_utf8(a);
    let bytes_b = encode_utf8(b);
    assert(framed(a) + rest_a =~= be64(bytes_a.len() as u64) + (bytes_a + rest_a));
    assert(framed(b) + rest_b =~= be64(bytes_b.len() as u64) + (bytes_b + rest_b));
    lemma_split_be64(
        bytes_a.len() as u64,
        bytes_a + rest_a,
        bytes_b.len() as u64,
        bytes_b + rest_b,
    );
    let left = bytes_a + rest_a;
    let right = bytes_b + rest_b;
    assert(left.subrange(0, bytes_a.len() as int) =~= bytes_a);
    assert(right.subrange(0, bytes_b.len() as int) =~= bytes_b);
    assert(left.subrange(bytes_a.len() as int, left.len() as int) =~= rest_a);
    assert(right.subrange(bytes_b.len() as int, right.len() as int) =~= rest_b);
    encode_utf8_decode_utf8(a);
    encode_utf8_decode_utf8(b);
}

/// No two claims are signed as the same bytes: claims with the same payload
/// have the same subject, digest, time of issue and expiry.
pub proof fn payload_is_injective(first: ClaimView, second: ClaimView)
    requires
        encode_utf8(first.subject).len() <= u64::MAX,
        encode_utf8(first.digest).len() <= u64::MAX,
        encode_utf8(second.subject).len() <= u64::MAX,
        encode_utf8(second.digest).len() <= u64::MAX,
        first.payload() == second.payload(),
    ensures
        first.subject == second.subject,
        first.digest == second.digest,
        first.issued_at == second.issued_at,
        first.expires_at == second.expires_at,
{
    let tail_a = be64(first.issued_at) + optional_time(first.expires_at);
    let tail_b = be64(second.issued_at) + optional_time(second.expires_at);
    let body_a = framed(first.subject) + (framed(first.digest) + tail_a);
    let body_b = framed(second.subject) + (framed(second.digest) + tail_b);
    assert(first.payload() =~= seq![CLAIM_TAG] + body_a);
    assert(second.payload() =~= seq![CLAIM_TAG] + body_b);
    assert(body_a =~= (seq![CLAIM_TAG] + body_a).subrange(1, 1 + body_a.len() as int));
    assert(body_b =~= (seq![CLAIM_TAG] + body_b).subrange(1, 1 + body_b.len() as int));
    lemma_split_framed(
        first.subject,
        framed(first.digest) + tail_a,
        second.subject,
        framed(second.digest) + tail_b,
    );
    lemma_split_framed(first.digest, tail_a, second.digest, tail_b);
    lemma_split_be64(
        first.issued_at,
        optional_time(first.expires_at),
        second.issued_at,
        optional_time(second.expires_at),
    );
    let end_a = optional_time(first.expires_at);
    let end_b = optional_time(second.expires_at);
    assert(end_a[0] == end_b[0]);
    if let (Some(at_a), Some(at_b)) = (first.expires_at, second.expires_at) {
        assert(end_a.subrange(1, 9) =~= be64(at_a));
        assert(end_b.subrange(1, 9) =~= be64(at_b));
        lemma_be64_injective(at_a, at_b);
    }
}

} // verus!
