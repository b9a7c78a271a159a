//! SHA-256 as laid down in FIPS 180-4, with an incremental hasher.
//!
//! The specification half follows the standard: a message is padded to a whole
//! number of 64-byte blocks and the blocks are folded into eight state words by
//! the compression function. The executable half is proved equal to it, both
//! for a whole buffer and for a message fed in pieces.

use crate::bytes::{be64, push_be64};
use vstd::prelude::*;

verus! {

/// The first 32 bits of the fractional parts of the cube roots of the first
/// sixty-four primes.
pub const ROUND_CONSTANTS: [u32; 64] = [
    0x428a2f98, 0x71374491, 0xb5c0fbcf, 0xe9b5dba5, 0x3956c25b, 0x59f111f1, 0x923f82a4, 0xab1c5ed5,
    0xd807aa98, 0x12835b01, 0x243185be, 0x550c7dc3, 0x72be5d74, 0x80deb1fe, 0x9bdc06a7, 0xc19bf174,
    0xe49b69c1, 0xefbe4786, 0x0fc19dc6, 0x240ca1cc, 0x2de92c6f, 0x4a7484aa, 0x5cb0a9dc, 0x76f988da,
    0x983e5152, 0xa831c66d, 0xb00327c8, 0xbf597fc7, 0xc6e00bf3, 0xd5a79147, 0x06ca6351, 0x14292967,
    0x27b70a85, 0x2e1b2138, 0x4d2c6dfc, 0x53380d13, 0x650a7354, 0x766a0abb, 0x81c2c92e, 0x92722c85,
    0xa2bfe8a1, 0xa81a664b, 0xc24b8b70, 0xc76c51a3, 0xd192e819, 0xd6990624, 0xf40e3585, 0x106aa070,
    0x19a4c116, 0x1e376c08, 0x2748774c, 0x34b0bcb5, 0x391c0cb3, 0x4ed8aa4a, 0x5b9cca4f, 0x682e6ff3,
    0x748f82ee, 0x78a5636f, 0x84c87814, 0x8cc70208, 0x90befffa, 0xa4506ceb, 0xbef9a3f7, 0xc67178f2,
];

/// The first 32 bits of the fractional parts of the square roots of the first
/// eight primes.
pub const INITIAL_STATE: [u32; 8] = [
    0x6a09e667, 0xbb67ae85, 0x3c6ef372, 0xa54ff53a, 0x510e527f, 0x9b05688c, 0x1f83d9ab, 0x5be0cd19,
];

/// `x` rotated right by `n` bits, for `0 < n < 32`.
pub open spec fn rotr(x: u32, n: u32) -> u32 {
    (x >> n) | (x << ((32 - n) as u32))
}

/// The bits of `y` where `x` is set, and of `z` where it is not.
pub open spec fn ch(x: u32, y: u32, z: u32) -> u32 {
    (x & y) ^ (!x & z)
}

/// The bits that are set in at least two of the three words.
pub open spec fn maj(x: u32, y: u32, z: u32) -> u32 {
    (x & y) ^ (x & z) ^ (y & z)
}

/// The function written as a capital sigma with index 0 in the standard.
pub open spec fn big_sigma0(x: u32) -> u32 {
    rotr(x, 2) ^ rotr(x, 13) ^ rotr(x, 22)
}

/// The function written as a capital sigma with index 1 in the standard.
pub open spec fn big_sigma1(x: u32) -> u32 {
    rotr(x, 6) ^ rotr(x, 11) ^ rotr(x, 25)
}

/// The function written as a small sigma with index 0 in the standard.
pub open spec fn small_sigma0(x: u32) -> u32 {
    rotr(x, 7) ^ rotr(x, 18) ^ (x >> 3)
}

/// The function written as a small sigma with index 1 in the standard.
pub open spec fn small_sigma1(x: u32) -> u32 {
    rotr(x, 17) ^ rotr(x, 19) ^ (x >> 10)
}

/// The big-endian word made of four bytes.
pub open spec fn word_of(b0: u8, b1: u8, b2: u8, b3: u8) -> u32 {
    ((b0 as u32) << 24) | ((b1 as u32) << 16) | ((b2 as u32) << 8) | (b3 as u32)
}

/// The four bytes of a word, most significant first.
pub open spec fn bytes_of(w: u32) -> Seq<u8> {
    seq![(w >> 24) as u8, ((w >> 16) & 0xff) as u8, ((w >> 8) & 0xff) as u8, (w & 0xff) as u8]
}

/// The sixteen big-endian words of a 64-byte block.
pub open spec fn words_of(block: Seq<u8>) -> Seq<u32> {
    Seq::new(16, |i: int| word_of(block[4 * i], block[4 * i + 1], block[4 * i + 2], block[4 * i + 3]))
}

/// Word `t` of the message schedule of a block, for `0 <= t < 64`.
pub open spec fn schedule(words: Seq<u32>, t: int) -> u32
    decreases t,
{
    if t < 16 {
        words[t]
    } else {
        small_sigma1(schedule(words, t - 2)).wrapping_add(schedule(words, t - 7)).wrapping_add(
            small_sigma0(schedule(words, t - 15)),
        ).wrapping_add(schedule(words, t - 16))
    }
}

/// One round on the working variables `a` to `h`, with round constant `k` and
/// schedule word `w`.
pub open spec fn round(v: Seq<u32>, k: u32, w: u32) -> Seq<u32> {
    let t1 = v[7].wrapping_add(big_sigma1(v[4])).wrapping_add(ch(v[4], v[5], v[6])).wrapping_add(
        k,
    ).wrapping_add(w);
    let t2 = big_sigma0(v[0]).wrapping_add(maj(v[0], v[1], v[2]));
    seq![t1.wrapping_add(t2), v[0], v[1], v[2], v[3].wrapping_add(t1), v[4], v[5], v[6]]
}

/// The working variables after the first `n` rounds.
pub open spec fn rounds(v: Seq<u32>, words: Seq<u32>, n: int) -> Seq<u32>
    decreases n,
{
    if n <= 0 {
        v
    } else {
        round(rounds(v, words, n - 1), ROUND_CONSTANTS@[n - 1], schedule(words, n - 1))
    }
}

/// The compression function: the state after one block of sixteen words.
pub open spec fn compress(state: Seq<u32>, words: Seq<u32>) -> Seq<u32> {
    let v = rounds(state, words, 64);
    Seq::new(8, |i: int| state[i].wrapping_add(v[i]))
}

/// The state after the whole blocks of `data`, whose length is a multiple of
/// 64, have been compressed into `state` one after the other.
pub open spec fn absorb(state: Seq<u32>, data: Seq<u8>) -> Seq<u32>
    decreases data.len(),
{
    if data.len() < 64 {
        state
    } else {
        compress(
            absorb(state, data.subrange(0, data.len() - 64)),
            words_of(data.subrange(data.len() - 64, data.len() as int)),
        )
    }
}

/// The number of zero bytes between the `0x80` marker and the length field.
pub open spec fn zero_fill(len: nat) -> nat {
    ((119 - len % 64) % 64) as nat
}

/// The message length in bits as the eight-byte field that ends the padding.
/// The standard defines the hash for messages shorter than 2^64 bits; beyond
/// that the field holds the length modulo 2^64, as implementations do.
pub open spec fn bit_length(len: nat) -> u64 {
    ((8 * len) % 0x1_0000_0000_0000_0000) as u64
}

/// `n` zero bytes.
pub open spec fn zeros(n: int) -> Seq<u8> {
    Seq::new(n as nat, |i: int| 0u8)
}

/// What is appended to a message of `len` bytes: the marker, the zero fill and
/// the length field.
pub open spec fn padding(len: nat) -> Seq<u8> {
    seq![0x80u8] + zeros(zero_fill(len) as int) + be64(bit_length(len))
}

/// The eight state words as thirty-two bytes.
pub open spec fn state_bytes(state: Seq<u32>) -> Seq<u8> {
    Seq::new(32, |i: int| bytes_of(state[i / 4])[i % 4])
}

/// The SHA-256 hash of `msg`.
pub open spec fn sha256(msg: Seq<u8>) -> Seq<u8> {
    state_bytes(absorb(INITIAL_STATE@, msg + padding(msg.len())))
}

/// A padded message is a whole number of blocks, whatever its length.
pub proof fn padded_message_fills_blocks(len: nat)
    ensures
        (len + padding(len).len()) % 64 == 0,
        padding(len).len() == 9 + zero_fill(len),
        zero_fill(len) < 64,
{
}

/// Compressing one more block onto whole blocks is one step of `absorb`.
pub proof fn lemma_absorb_block(state: Seq<u32>, data: Seq<u8>, block: Seq<u8>)
    requires
        block.len() == 64,
    ensures
        absorb(state, data + block) == compress(absorb(state, data), words_of(block)),
{
    let all = data + block;
    assert(all.subrange(0, all.len() - 64) =~= data);
    assert(all.subrange(all.len() - 64, all.len() as int) =~= block);
}

/// A schedule word past the sixteenth, in terms of four earlier ones.
proof fn lemma_schedule_step(words: Seq<u32>, t: int)
    requires
        16 <= t,
    ensures
        schedule(words, t) == small_sigma1(schedule(words, t - 2)).wrapping_add(
            schedule(words, t - 7),
        ).wrapping_add(small_sigma0(schedule(words, t - 15))).wrapping_add(schedule(words, t - 16)),
{
}

fn rotate_right(x: u32, n: u32) -> (r: u32)
    requires
        0 < n < 32,
    ensures
        r == rotr(x, n),
{
    (x >> n) | (x << (32 - n))
}

fn choose_bits(x: u32, y: u32, z: u32) -> (r: u32)
    ensures
        r == ch(x, y, z),
{
    (x & y) ^ (!x & z)
}

fn majority(x: u32, y: u32, z: u32) -> (r: u32)
    ensures
        r == maj(x, y, z),
{
    (x & y) ^ (x & z) ^ (y & z)
}

fn read_word(block: &[u8], at: usize) -> (r: u32)
    requires
        at + 4 <= block@.len(),
    ensures
        r == word_of(block@[at as int], block@[at + 1], block@[at + 2], block@[at + 3]),
{
    ((block[at] as u32) << 24) | ((block[at + 1] as u32) << 16) | ((block[at + 2] as u32) << 8) | (
    block[at + 3] as u32)
}

/// Folds one 64-byte block into the state.
fn compress_block(state: &mut [u32; 8], block: &[u8])
    requires
        block@.len() == 64,
    ensures
        final(state)@ == compress(old(state)@, words_of(block@)),
{
    let ghost words = words_of(block@);
    let mut w: [u32; 64] = [0u32; 64];
    let mut t: usize = 0;
    while t < 16
        invariant
            t <= 16,
            block@.len() == 64,
            words == words_of(block@),
            forall|j: int| 0 <= j < t ==> w@[j] == schedule(words, j),
        decreases 16 - t,
    {
        let word = read_word(block, 4 * t);
        w[t] = word;
        t += 1;
    }
    while t < 64
        invariant
            16 <= t <= 64,
            forall|j: int| 0 <= j < t ==> w@[j] == schedule(words, j),
        decreases 64 - t,
    {
        let s0 = rotate_right(w[t - 15], 7) ^ rotate_right(w[t - 15], 18) ^ (w[t - 15] >> 3);
        let s1 = rotate_right(w[t - 2], 17) ^ rotate_right(w[t - 2], 19) ^ (w[t - 2] >> 10);
        let next = s1.wrapping_add(w[t - 7]).wrapping_add(s0).wrapping_add(w[t - 16]);
        proof {
            lemma_schedule_step(words, t as int);
            assert(w@[t - 2] == schedule(words, t - 2));
            assert(w@[t - 7] == schedule(words, t - 7));
            assert(w@[t - 15] == schedule(words, t - 15));
            assert(w@[t - 16] == schedule(words, t - 16));
        }
        w[t] = next;
        t += 1;
    }
    let mut v: [u32; 8] = *state;
    t = 0;
    while t < 64
        invariant
            t <= 64,
            v@ == rounds(old(state)@, words, t as int),
            forall|j: int| 0 <= j < 64 ==> w@[j] == schedule(words, j),
        decreases 64 - t,
    {
        let s1 = rotate_right(v[4], 6) ^ rotate_right(v[4], 11) ^ rotate_right(v[4], 25);
        let s0 = rotate_right(v[0], 2) ^ rotate_right(v[0], 13) ^ rotate_right(v[0], 22);
        let t1 = v[7].wrapping_add(s1).wrapping_add(choose_bits(v[4], v[5], v[6])).wrapping_add(
            ROUND_CONSTANTS[t],
        ).wrapping_add(w[t]);
        let t2 = s0.wrapping_add(majority(v[0], v[1], v[2]));
        let ghost before = v@;
        v = [t1.wrapping_add(t2), v[0], v[1], v[2], v[3].wrapping_add(t1), v[4], v[5], v[6]];
        assert(v@ =~= round(before, ROUND_CONSTANTS@[t as int], schedule(words, t as int)));
        t += 1;
    }
    let mut i: usize = 0;
    while i < 8
        invariant
            i <= 8,
            v@ == rounds(old(state)@, words, 64),
            forall|j: int| 0 <= j < i ==> state@[j] == old(state)@[j].wrapping_add(v@[j]),
            forall|j: int| i <= j < 8 ==> state@[j] == old(state)@[j],
        decreases 8 - i,
    {
        let sum = state[i].wrapping_add(v[i]);
        state[i] = sum;
        i += 1;
    }
    assert(state@ =~= compress(old(state)@, words));
}

/// The working state of a hasher. Its view is the message absorbed so far.
struct Absorber {
    state: [u32; 8],
    pending: Vec<u8>,
    bits: u64,
    absorbed: Ghost<Seq<u8>>,
}

impl View for Absorber {
    type V = Seq<u8>;

    closed spec fn view(&self) -> Seq<u8> {
        self.absorbed@
    }
}

impl Absorber {
    /// The whole blocks of the message are folded into the state, and what is
    /// left over waits in the buffer.
    spec fn wf(&self) -> bool {
        let done = self.absorbed@.len() - self.pending@.len();
        &&& self.pending@.len() < 64
        &&& done >= 0
        &&& done % 64 == 0
        &&& self.bits == bit_length(self.absorbed@.len())
        &&& self.state@ == absorb(INITIAL_STATE@, self.absorbed@.take(done))
        &&& self.pending@ == self.absorbed@.skip(done)
    }

    /// A hasher that has absorbed nothing.
    fn new() -> (hasher: Self)
        ensures
            hasher.wf(),
            hasher@ == Seq::<u8>::empty(),
    {
        let hasher = Absorber {
            state: INITIAL_STATE,
            pending: Vec::new(),
            bits: 0,
            absorbed: Ghost(Seq::empty()),
        };
        assert(hasher.absorbed@.take(0) =~= Seq::<u8>::empty());
        hasher
    }

    /// Absorbs `data` after what was absorbed before.
    fn update(&mut self, data: &[u8])
        requires
            old(self).wf(),
        ensures
            final(self).wf(),
            final(self)@ == old(self)@ + data@,
    {
        let mut i: usize = 0;
        assert(data@.take(0) =~= Seq::<u8>::empty());
        while i < data.len()
            invariant
                i <= data@.len(),
                self.wf(),
                self@ =~= old(self)@ + data@.take(i as int),
            decreases data@.len() - i,
        {
            let byte = data[i];
            let ghost before = self.absorbed@;
            let ghost done = before.len() - self.pending@.len();
            self.pending.push(byte);
            self.bits = self.bits.wrapping_add(8);
            self.absorbed = Ghost(before.push(byte));
            assert(self.absorbed@.take(done) =~= before.take(done));
            assert(self.absorbed@.skip(done) =~= before.skip(done).push(byte));
            assert(data@.take(i + 1) =~= data@.take(i as int).push(byte));
            if self.pending.len() == 64 {
                proof {
                    lemma_absorb_block(INITIAL_STATE@, before.take(done), self.pending@);
                    assert(self.absorbed@.take(done + 64) =~= before.take(done) + self.pending@);
                }
                compress_block(&mut self.state, self.pending.as_slice());
                self.pending.clear();
                assert(self.absorbed@.skip(done + 64) =~= Seq::<u8>::empty());
            }
            i += 1;
        }
        assert(data@.take(data@.len() as int) =~= data@);
    }

    /// The hash of everything absorbed.
    fn finalize(self) -> (out: [u8; 32])
        requires
            self.wf(),
        ensures
            out@ == sha256(self@),
    {
        let ghost msg = self.absorbed@;
        let ghost tail = self.pending@;
        let ghost prefix = msg.take(msg.len() - tail.len());
        let mut state = self.state;
        let mut block = self.pending;
        let bits = self.bits;
        proof {
            assert(msg =~= prefix + tail);
        }
        block.push(0x80u8);
        if block.len() > 56 {
            fill_zeros(&mut block, 64);
            let ghost first = block@;
            proof {
                lemma_absorb_block(INITIAL_STATE@, prefix, first);
            }
            compress_block(&mut state, block.as_slice());
            block.clear();
            fill_zeros(&mut block, 56);
            push_be64(&mut block, bits);
            proof {
                lemma_absorb_block(INITIAL_STATE@, prefix + first, block@);
                lemma_padding_two_blocks(msg, prefix, tail);
            }
            compress_block(&mut state, block.as_slice());
        } else {
            fill_zeros(&mut block, 56);
            push_be64(&mut block, bits);
            proof {
                lemma_absorb_block(INITIAL_STATE@, prefix, block@);
                lemma_padding_one_block(msg, prefix, tail);
            }
            compress_block(&mut state, block.as_slice());
        }
        write_digest(&state)
    }
}

/// An incremental SHA-256 hasher. Its view is the message absorbed so far.
pub struct Sha256 {
    inner: Absorber,
}

impl View for Sha256 {
    type V = Seq<u8>;

    closed spec fn view(&self) -> Seq<u8> {
        self.inner@
    }
}

impl Sha256 {
    #[verifier::type_invariant]
    spec fn inv(self) -> bool {
        self.inner.wf()
    }

    /// A hasher that has absorbed nothing.
    pub fn new() -> (hasher: Self)
        ensures
            hasher@ == Seq::<u8>::empty(),
    {
        Sha256 { inner: Absorber::new() }
    }

    /// Absorbs `data` after what was absorbed before.
    pub fn update(&mut self, data: &[u8])
        ensures
            final(self)@ == old(self)@ + data@,
    {
        proof {
            use_type_invariant(&*self);
        }
        let mut inner = Absorber::new();
        std::mem::swap(&mut inner, &mut self.inner);
        inner.update(data);
        self.inner = inner;
    }

    /// The hash of everything absorbed.
    pub fn finalize(self) -> (out: [u8; 32])
        ensures
            out@ == sha256(self@),
    {
        proof {
            use_type_invariant(&self);
        }
        self.inner.finalize()
    }
}

/// With fewer than 56 bytes left over, the padded tail is one block.
proof fn lemma_padding_one_block(msg: Seq<u8>, prefix: Seq<u8>, tail: Seq<u8>)
    requires
        msg == prefix + tail,
        prefix.len() % 64 == 0,
        tail.len() < 56,
    ensures
        msg + padding(msg.len()) == prefix + (tail.push(0x80u8) + zeros(55 - tail.len())
            + be64(bit_length(msg.len()))),
{
    assert(zero_fill(msg.len()) == 55 - tail.len());
    assert(msg + padding(msg.len()) =~= prefix + (tail.push(0x80u8) + zeros(55 - tail.len())
        + be64(bit_length(msg.len()))));
}

/// With 56 to 63 bytes left over, the padded tail is two blocks.
proof fn lemma_padding_two_blocks(msg: Seq<u8>, prefix: Seq<u8>, tail: Seq<u8>)
    requires
        msg == prefix + tail,
        prefix.len() % 64 == 0,
        56 <= tail.len() < 64,
    ensures
        msg + padding(msg.len()) == (prefix + (tail.push(0x80u8) + zeros(63 - tail.len()))) + (
        zeros(56) + be64(bit_length(msg.len()))),
{
    assert(zero_fill(msg.len()) == 119 - tail.len());
    assert(msg + padding(msg.len()) =~= (prefix + (tail.push(0x80u8) + zeros(63 - tail.len())))
        + (zeros(56) + be64(bit_length(msg.len()))));
}

/// Appends zero bytes until `block` is `upto` bytes long.
fn fill_zeros(block: &mut Vec<u8>, upto: usize)
    requires
        old(block)@.len() <= upto,
    ensures
        final(block)@ == old(block)@ + zeros(upto - old(block)@.len()),
{
    assert(block@ =~= old(block)@ + zeros(0));
    while block.len() < upto
        invariant
            old(block)@.len() <= block@.len() <= upto,
            block@ == old(block)@ + zeros(block@.len() - old(block)@.len()),
        decreases upto - block@.len(),
    {
        let ghost n = block@.len() - old(block)@.len();
        block.push(0u8);
        assert(zeros(n + 1) =~= zeros(n).push(0u8));
        assert(block@ =~= old(block)@ + zeros(n + 1));
    }
}

/// The state words as bytes, most significant first.
fn write_digest(state: &[u32; 8]) -> (out: [u8; 32])
    ensures
        out@ == state_bytes(state@),
{
    let mut out: [u8; 32] = [0u8; 32];
    let mut i: usize = 0;
    while i < 8
        invariant
            i <= 8,
            forall|j: int| 0 <= j < 4 * i ==> out@[j] == bytes_of(state@[j / 4])[j % 4],
        decreases 8 - i,
    {
        let word = state[i];
        out[4 * i] = (word >> 24) as u8;
        out[4 * i + 1] = ((word >> 16) & 0xff) as u8;
        out[4 * i + 2] = ((word >> 8) & 0xff) as u8;
        out[4 * i + 3] = (word & 0xff) as u8;
        i += 1;
    }
    assert(out@ =~= state_bytes(state@));
    out
}

/// The SHA-256 hash of a whole buffer.
pub fn calc_sha256(input: &[u8]) -> (out: [u8; 32])
    ensures
        out@ == sha256(input@),
{
    let mut hasher = Sha256::new();
    hasher.update(input);
    assert(Seq::<u8>::empty() + input@ =~= input@);
    hasher.finalize()
}

} // verus!
