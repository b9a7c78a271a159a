//! Content digests: the SHA-256 hash of some bytes as URL-safe text, with the
//! number of bytes hashed.
//!
//! A buffer is digested in one call; a file is digested by handing its chunks
//! to a [`Digester`] as they are read. Both give the same digest for the same
//! bytes, however the bytes were cut into chunks.

use crate::base64url;
use crate::error::Error;
use crate::sha256::{calc_sha256, Sha256};
use vstd::prelude::*;
use vstd::slice::slice_subrange;

verus! {

/// The number of characters in a digest.
pub const DIGEST_CHARS: usize = 43;

/// The number of bytes that a reader of a file hands over at a time.
pub const CHUNK_BYTES: usize = 65536;

/// The digest of `bytes` as text.
pub open spec fn digest_text(bytes: Seq<u8>) -> Seq<char> {
    base64url::encode(crate::sha256::sha256(bytes))
}

/// A digest has forty-three characters, whatever was hashed.
pub proof fn lemma_digest_text_len(bytes: Seq<u8>)
    ensures
        digest_text(bytes).len() == DIGEST_CHARS,
{
    base64url::lemma_encode_len(crate::sha256::sha256(bytes));
}

/// Two digests are the same text exactly if the hashes are the same: the
/// text form loses nothing of the hash.
pub proof fn digests_agree_iff_hashes_agree(first: Seq<u8>, second: Seq<u8>)
    ensures
        digest_text(first) == digest_text(second) <==> crate::sha256::sha256(first)
            == crate::sha256::sha256(second),
{
    if digest_text(first) == digest_text(second) {
        base64url::encode_is_injective(
            crate::sha256::sha256(first),
            crate::sha256::sha256(second),
        );
    }
}

/// The digest of a buffer.
pub fn sha256(input: &[u8]) -> (text: String)
    ensures
        text@ == digest_text(input@),
{
    let hash = calc_sha256(input);
    base64url::encode_url_safe(hash.as_slice())
}

/// The digest of a buffer, with the buffer's length.
pub fn digest(input: &[u8]) -> (result: (String, u64))
    ensures
        result.0@ == digest_text(input@),
        result.1 == input@.len(),
{
    (sha256(input), input.len() as u64)
}

/// The size that is reported for `len` bytes: their number, or the largest
/// number there is where they are more.
pub open spec fn counted(len: nat) -> u64 {
    if len > u64::MAX {
        u64::MAX
    } else {
        len as u64
    }
}

/// What a digester works on: the hasher and the count of bytes.
struct Tally {
    hasher: Sha256,
    size: u64,
}

impl Tally {
    spec fn wf(&self) -> bool {
        self.size == counted(self.hasher@.len())
    }

    fn new() -> (tally: Self)
        ensures
            tally.wf(),
            tally.hasher@ == Seq::<u8>::empty(),
    {
        Tally { hasher: Sha256::new(), size: 0 }
    }
}

/// A digest in the making. Its view is the bytes taken in so far.
pub struct Digester {
    tally: Tally,
}

impl View for Digester {
    type V = Seq<u8>;

    closed spec fn view(&self) -> Seq<u8> {
        self.tally.hasher@
    }
}

impl Digester {
    #[verifier::type_invariant]
    spec fn inv(self) -> bool {
        self.tally.wf()
    }

    /// A digester that has taken in nothing.
    pub fn new() -> (digester: Self)
        ensures
            digester@ == Seq::<u8>::empty(),
    {
        Digester { tally: Tally::new() }
    }

    /// The number of bytes taken in.
    pub fn size(&self) -> (size: u64)
        ensures
            size == counted(self@.len()),
    {
        proof {
            use_type_invariant(self);
        }
        self.tally.size
    }

    /// Takes in the next chunk.
    pub fn update(&mut self, chunk: &[u8])
        ensures
            final(self)@ == old(self)@ + chunk@,
    {
        proof {
            use_type_invariant(&*self);
        }
        let mut tally = Tally::new();
        std::mem::swap(&mut tally, &mut self.tally);
        tally.hasher.update(chunk);
        tally.size = tally.size.saturating_add(chunk.len() as u64);
        self.tally = tally;
    }

    /// The digest of everything taken in, with its size.
    pub fn finish(self) -> (result: (String, u64))
        ensures
            result.0@ == digest_text(self@),
            result.1 == counted(self@.len()),
    {
        proof {
            use_type_invariant(&self);
        }
        let size = self.tally.size;
        let hash = self.tally.hasher.finalize();
        (base64url::encode_url_safe(hash.as_slice()), size)
    }
}

/// The digest of a buffer taken in `chunk` bytes at a time, as a file is: the
/// same as the digest of the buffer taken whole. With a chunk size of zero
/// the buffer is taken whole.
pub fn digest_streamed(input: &[u8], chunk: usize) -> (result: (String, u64))
    ensures
        result.0@ == digest_text(input@),
        result.1 == input@.len(),
{
    if chunk == 0 {
        return digest(input);
    }
    let mut digester = Digester::new();
    let mut at: usize = 0;
    assert(input@.take(0) =~= Seq::<u8>::empty());
    while at < input.len()
        invariant
            chunk > 0,
            at <= input@.len(),
            digester@ == input@.take(at as int),
        decreases input@.len() - at,
    {
        let end = if input.len() - at < chunk {
            input.len()
        } else {
            at + chunk
        };
        let piece = slice_subrange(input, at, end);
        digester.update(piece);
        assert(input@.take(end as int) =~= input@.take(at as int) + input@.subrange(
            at as int,
            end as int,
        ));
        at = end;
    }
    assert(input@.take(input@.len() as int) =~= input@);
    digester.finish()
}

/// What a best-effort caller is given for a file: the digest and size where
/// the file was read, and an empty digest with size zero where it was not.
pub open spec fn best_effort(outcome: Result<(String, u64), Error>) -> (Seq<char>, u64) {
    match outcome {
        Ok(found) => (found.0@, found.1),
        Err(_) => (Seq::empty(), 0),
    }
}

/// Turns the outcome of digesting a file into the best-effort answer, which
/// never fails. A failure gives the empty digest, which no digest equals, so
/// the caller can still tell an empty file from one that could not be read.
pub fn file_hash_size(outcome: Result<(String, u64), Error>) -> (result: (String, u64))
    ensures
        (result.0@, result.1) == best_effort(outcome),
{
    match outcome {
        Ok(found) => found,
        Err(_) => (String::new(), 0),
    }
}

/// No digest is the empty text that stands for a read failure.
pub proof fn digest_is_never_empty(bytes: Seq<u8>)
    ensures
        digest_text(bytes) != Seq::<char>::empty(),
{
    lemma_digest_text_len(bytes);
}

} // verus!
