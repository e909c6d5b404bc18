//! The xoshiro256** generator as a deterministic byte stream.
//!
//! The stream is a pure function of its four 64-bit state words. The state is
//! carried between processes as 32 bytes, each word in little-endian order.

use vstd::bytes::{
    lemma_auto_spec_u64_to_from_le_bytes, spec_u64_from_le_bytes, spec_u64_to_le_bytes,
    u64_from_le_bytes, u64_to_le_bytes,
};
use vstd::prelude::*;
use vstd::slice::slice_subrange;
use vstd::wrapping::u64_specs::wrapping_mul;

verus! {

/// `x` rotated left by `k` bits, for `0 < k < 64`.
pub open spec fn rotated_left(x: u64, k: u32) -> u64 {
    (x << k) | (x >> ((64 - k) as u32))
}

/// The 64-bit word that a stream in state `w` puts out next.
pub open spec fn output_word(w: Seq<u64>) -> u64 {
    wrapping_mul(rotated_left(wrapping_mul(w[1], 5), 7), 9)
}

/// The byte that a stream in state `w` puts out next: the low byte of the
/// next output word.
pub open spec fn output_byte(w: Seq<u64>) -> u8 {
    (output_word(w) & 0xff) as u8
}

/// The state that follows `w` after one output.
pub open spec fn next_words(w: Seq<u64>) -> Seq<u64> {
    let t = w[1] << 17u32;
    let c = w[2] ^ w[0];
    let d = w[3] ^ w[1];
    let b = w[1] ^ c;
    let a = w[0] ^ d;
    seq![a, b, c ^ t, rotated_left(d, 45)]
}

/// The state that follows `w` after `n` outputs.
pub open spec fn words_after(w: Seq<u64>, n: nat) -> Seq<u64>
    decreases n,
{
    if n == 0 {
        w
    } else {
        next_words(words_after(w, (n - 1) as nat))
    }
}

/// The first `n` bytes that a stream in state `w` puts out.
pub open spec fn bytes_drawn(w: Seq<u64>, n: nat) -> Seq<u8>
    decreases n,
{
    if n == 0 {
        Seq::empty()
    } else {
        bytes_drawn(w, (n - 1) as nat).push(output_byte(words_after(w, (n - 1) as nat)))
    }
}

/// The four state words held in 32 bytes of exported state.
pub open spec fn words_of_data(data: Seq<u8>) -> Seq<u64> {
    Seq::new(4, |i: int| spec_u64_from_le_bytes(data.subrange(8 * i, 8 * i + 8)))
}

/// The 32 bytes that export the four state words `w`.
pub open spec fn data_of_words(w: Seq<u64>) -> Seq<u8> {
    Seq::new(32, |k: int| spec_u64_to_le_bytes(w[k / 8])[k % 8])
}

/// Drawing `n` bytes yields exactly `n` bytes.
pub proof fn lemma_bytes_drawn_len(w: Seq<u64>, n: nat)
    ensures
        bytes_drawn(w, n).len() == n,
    decreases n,
{
    if n > 0 {
        lemma_bytes_drawn_len(w, (n - 1) as nat);
    }
}

/// Every state reached from a four-word state has four words.
pub proof fn lemma_words_after_len(w: Seq<u64>, n: nat)
    requires
        w.len() == 4,
    ensures
        words_after(w, n).len() == 4,
    decreases n,
{
    if n > 0 {
        lemma_words_after_len(w, (n - 1) as nat);
    }
}

/// Advancing by `a` steps and then by `b` steps is advancing by `a + b`.
pub proof fn lemma_words_after_add(w: Seq<u64>, a: nat, b: nat)
    ensures
        words_after(words_after(w, a), b) == words_after(w, a + b),
    decreases b,
{
    if b > 0 {
        lemma_words_after_add(w, a, (b - 1) as nat);
    }
}

/// The first `a + b` bytes of a stream are its first `a` bytes followed by
/// the first `b` bytes of the stream as it stands after `a` steps.
pub proof fn lemma_bytes_drawn_add(w: Seq<u64>, a: nat, b: nat)
    ensures
        bytes_drawn(w, a + b) == bytes_drawn(w, a) + bytes_drawn(words_after(w, a), b),
    decreases b,
{
    if b == 0 {
        assert(bytes_drawn(w, a) + Seq::<u8>::empty() =~= bytes_drawn(w, a));
    } else {
        let earlier = (b - 1) as nat;
        lemma_bytes_drawn_add(w, a, earlier);
        lemma_words_after_add(w, a, earlier);
        let last = output_byte(words_after(w, a + earlier));
        assert((bytes_drawn(w, a) + bytes_drawn(words_after(w, a), earlier)).push(last)
            =~= bytes_drawn(w, a) + bytes_drawn(words_after(w, a), earlier).push(last));
    }
}

/// Exporting four state words and reading them back gives the same words.
pub proof fn lemma_words_survive_export(w: Seq<u64>)
    requires
        w.len() == 4,
    ensures
        data_of_words(w).len() == 32,
        words_of_data(data_of_words(w)) == w,
{
    lemma_auto_spec_u64_to_from_le_bytes();
    let data = data_of_words(w);
    assert forall|i: int| 0 <= i < 4 implies #[trigger] words_of_data(data)[i] == w[i] by {
        assert(data.subrange(8 * i, 8 * i + 8) =~= spec_u64_to_le_bytes(w[i]));
    }
    assert(words_of_data(data) =~= w);
}

/// Reading 32 bytes as state words and exporting them gives the same bytes.
pub proof fn lemma_data_survives_import(data: Seq<u8>)
    requires
        data.len() == 32,
    ensures
        words_of_data(data).len() == 4,
        data_of_words(words_of_data(data)) == data,
{
    lemma_auto_spec_u64_to_from_le_bytes();
    let w = words_of_data(data);
    assert forall|k: int| 0 <= k < 32 implies #[trigger] data_of_words(w)[k] == data[k] by {
        let i = k / 8;
        let part = data.subrange(8 * i, 8 * i + 8);
        assert(part.len() == 8);
        assert(spec_u64_to_le_bytes(spec_u64_from_le_bytes(part)) == part);
        assert(part[k % 8] == data[k]);
    }
    assert(data_of_words(w) =~= data);
}

fn rotate_left(x: u64, k: u32) -> (r: u64)
    requires
        0 < k < 64,
    ensures
        r == rotated_left(x, k),
{
    (x << k) | (x >> (64 - k))
}

/// A xoshiro256** generator used as a deterministic stream of bytes.
#[derive(Clone, Copy, Debug, PartialEq, Eq)]
pub struct Xoshiro256StarStar {
    s: [u64; 4],
}

impl View for Xoshiro256StarStar {
    type V = Seq<u64>;

    closed spec fn view(&self) -> Seq<u64> {
        self.s@
    }
}

impl Xoshiro256StarStar {
    /// Starts a stream from 32 bytes of exported state.
    pub fn from_data(data: &[u8; 32]) -> (rng: Self)
        ensures
            rng@ == words_of_data(data@),
    {
        let bytes = data.as_slice();
        let a = u64_from_le_bytes(slice_subrange(bytes, 0, 8));
        let b = u64_from_le_bytes(slice_subrange(bytes, 8, 16));
        let c = u64_from_le_bytes(slice_subrange(bytes, 16, 24));
        let d = u64_from_le_bytes(slice_subrange(bytes, 24, 32));
        let rng = Xoshiro256StarStar { s: [a, b, c, d] };
        assert(rng@ =~= words_of_data(data@));
        rng
    }

    /// Exports the state of the stream as 32 bytes.
    pub fn to_data(&self) -> (data: [u8; 32])
        ensures
            data@ == data_of_words(self@),
    {
        let mut data = [0u8; 32];
        let mut i: usize = 0;
        while i < 4
            invariant
                i <= 4,
                forall|k: int|
                    0 <= k < 8 * i ==> data@[k] == spec_u64_to_le_bytes(self.s@[k / 8])[k % 8],
            decreases 4 - i,
        {
            let word = u64_to_le_bytes(self.s[i]);
            let mut j: usize = 0;
            while j < 8
                invariant
                    i < 4,
                    j <= 8,
                    word@ == spec_u64_to_le_bytes(self.s@[i as int]),
                    word@.len() == 8,
                    forall|k: int|
                        0 <= k < 8 * i + j ==> data@[k] == spec_u64_to_le_bytes(
                            self.s@[k / 8],
                        )[k % 8],
                decreases 8 - j,
            {
                data[8 * i + j] = word[j];
                j += 1;
            }
            i += 1;
        }
        assert(data@ =~= data_of_words(self@));
        data
    }

    /// Draws the next 64-bit word and advances the stream by one step.
    pub fn next_u64(&mut self) -> (out: u64)
        ensures
            out == output_word(old(self)@),
            final(self)@ == next_words(old(self)@),
    {
        let s0: u64 = self.s[0];
        let s1: u64 = self.s[1];
        let s2: u64 = self.s[2];
        let s3: u64 = self.s[3];
        let out = rotate_left(s1.wrapping_mul(5), 7).wrapping_mul(9);
        let t = s1 << 17u32;
        let c = s2 ^ s0;
        let d = s3 ^ s1;
        let b = s1 ^ c;
        let a = s0 ^ d;
        self.s = [a, b, c ^ t, rotate_left(d, 45)];
        assert(self@ =~= next_words(old(self)@));
        out
    }

    /// Draws the next byte and advances the stream by one step.
    pub fn next_byte(&mut self) -> (out: u8)
        ensures
            out == output_byte(old(self)@),
            final(self)@ == next_words(old(self)@),
    {
        let word = self.next_u64();
        assert(word & 0xff <= 0xff) by (bit_vector);
        (word & 0xff) as u8
    }

    /// Draws the next `len` bytes and advances the stream by `len` steps.
    pub fn next_bytes(&mut self, len: usize) -> (out: Vec<u8>)
        ensures
            out@ == bytes_drawn(old(self)@, len as nat),
            out@.len() == len,
            final(self)@ == words_after(old(self)@, len as nat),
    {
        let mut out: Vec<u8> = Vec::with_capacity(len);
        let mut i: usize = 0;
        while i < len
            invariant
                i <= len,
                out@ == bytes_drawn(old(self)@, i as nat),
                self@ == words_after(old(self)@, i as nat),
            decreases len - i,
        {
            let byte = self.next_byte();
            out.push(byte);
            i += 1;
        }
        proof {
            lemma_bytes_drawn_len(old(self)@, len as nat);
        }
        out
    }

    /// The next `len` bytes of the stream, drawn from a copy: the stream
    /// itself does not advance.
    pub fn peek_bytes(&self, len: usize) -> (out: Vec<u8>)
        ensures
            out@ == bytes_drawn(self@, len as nat),
            out@.len() == len,
    {
        let mut ahead = *self;
        ahead.next_bytes(len)
    }
}

} // verus!
