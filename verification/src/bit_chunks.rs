//! Fixed-width chunks of a 64-bit word, least significant chunk first.
//!
//! A chunk reader holds the bits that have not been handed out yet. Each call
//! of `next` hands out the lowest chunk and shifts the rest down; once no set
//! bit is left the reader is exhausted and answers `None` from then on.

use vstd::prelude::*;

verus! {

/// Width, count and mask of the chunks that a reader hands out.
pub trait BitChunks {
    /// Number of bits in one chunk.
    const CHUNK_BITS: u32;

    /// Number of chunks that cover all 64 bits.
    const MAX_CHUNKS: usize;

    /// The low `CHUNK_BITS` bits set.
    const CHUNK_MASK: u64;
}

/// The chunk of `bits` bits that starts at bit `index * bits` of `value`.
pub open spec fn chunk_at(value: u64, bits: u32, index: nat) -> u64 {
    if index * bits >= 64 {
        0
    } else {
        (value >> ((index * bits) as u64)) & low_mask(bits)
    }
}

/// The word whose low `bits` bits are set and no others.
pub open spec fn low_mask(bits: u32) -> u64 {
    if bits >= 64 {
        u64::MAX
    } else {
        ((1u64 << bits) - 1) as u64
    }
}

/// What is left of `value` after `taken` chunks of `bits` bits were handed out.
pub open spec fn rest_after(value: u64, bits: u32, taken: nat) -> u64 {
    if taken * bits >= 64 {
        0
    } else {
        value >> ((taken * bits) as u64)
    }
}

/// Number of chunks that a reader over `value` hands out before it is exhausted.
pub open spec fn chunk_count(value: u64, bits: u32) -> nat
    decreases value,
    when 0 < bits < 64
    via chunk_count_decreases
{
    if value == 0 {
        0
    } else {
        1 + chunk_count(value >> bits, bits)
    }
}

#[via_fn]
proof fn chunk_count_decreases(value: u64, bits: u32) {
    if value != 0 {
        lemma_shift_shrinks(value, bits);
    }
}

/// The chunk that `next` answers with, or zero once the reader is exhausted.
pub open spec fn chunk_or_zero(out: Option<u8>) -> u8 {
    match out {
        Some(c) => c,
        None => 0,
    }
}

/// Handing out a chunk of a word that is not zero leaves a smaller word.
pub proof fn lemma_shift_shrinks(value: u64, bits: u32)
    by (bit_vector)
    requires
        value != 0,
        0 < bits < 64,
    ensures
        value >> bits < value,
{
}

proof fn lemma_masked_fits(value: u64, mask: u64)
    by (bit_vector)
    ensures
        value & mask <= mask,
        value == 0 ==> value & mask == 0,
{
}

proof fn lemma_shift_on_u4(value: u64, first: u64)
    by (bit_vector)
    requires
        first < 64,
    ensures
        (value >> first) >> 4u32 == (if first + 4 < 64 {
            value >> ((first + 4) as u64)
        } else {
            0
        }),
        value >> 0u64 == value,
        0u64 >> 4u32 == 0,
{
}

proof fn lemma_shift_on_u5(value: u64, first: u64)
    by (bit_vector)
    requires
        first < 64,
    ensures
        (value >> first) >> 5u32 == (if first + 5 < 64 {
            value >> ((first + 5) as u64)
        } else {
            0
        }),
        value >> 0u64 == value,
        0u64 >> 5u32 == 0,
{
}

proof fn lemma_shift_on_u6(value: u64, first: u64)
    by (bit_vector)
    requires
        first < 64,
    ensures
        (value >> first) >> 6u32 == (if first + 6 < 64 {
            value >> ((first + 6) as u64)
        } else {
            0
        }),
        value >> 0u64 == value,
        0u64 >> 6u32 == 0,
{
}

/// Taking one more chunk from what is left after `taken` chunks leaves what
/// is left after `taken + 1` chunks, and the chunk taken is `chunk_at` of
/// the word the reader started from.
pub proof fn lemma_rest_step(value: u64, bits: u32, taken: nat)
    requires
        bits == 4 || bits == 5 || bits == 6,
    ensures
        rest_after(value, bits, taken) >> bits == rest_after(value, bits, taken + 1),
        rest_after(value, bits, taken) & low_mask(bits) == chunk_at(value, bits, taken),
        rest_after(value, bits, 0) == value,
        low_mask(4) == 0x0f,
        low_mask(5) == 0x1f,
        low_mask(6) == 0x3f,
        chunk_at(value, bits, taken) <= low_mask(bits),
{
    assert((1u64 << 4u32) == 16 && (1u64 << 5u32) == 32 && (1u64 << 6u32) == 64) by (bit_vector);
    lemma_masked_fits(rest_after(value, bits, taken), low_mask(bits));
    let first: u64 = if taken * bits < 64 {
        (taken * bits) as u64
    } else {
        0
    };
    if bits == 4 {
        lemma_shift_on_u4(value, first);
        lemma_shift_on_u4(value, 0);
    } else if bits == 5 {
        lemma_shift_on_u5(value, first);
        lemma_shift_on_u5(value, 0);
    } else {
        lemma_shift_on_u6(value, first);
        lemma_shift_on_u6(value, 0);
    }
}

/// Hands out the lowest chunk of `rest` and shifts the remaining bits down.
fn take_chunk(rest: &mut u64, bits: u32, mask: u64) -> (out: Option<u8>)
    requires
        0 < bits < 64,
        mask <= 0xff,
    ensures
        *final(rest) == *old(rest) >> bits,
        out is None <==> *old(rest) == 0,
        chunk_or_zero(out) == *old(rest) & mask,
        chunk_or_zero(out) <= mask,
{
    let word = *rest;
    proof {
        lemma_masked_fits(word, mask);
    }
    let out = if word == 0 {
        None
    } else {
        Some((word & mask) as u8)
    };
    *rest = word >> bits;
    out
}

/// Counts the chunks that are left in `rest`.
fn count_chunks(rest: u64, bits: u32, max: usize) -> (n: usize)
    requires
        0 < bits < 64,
        chunk_count(rest, bits) <= max,
    ensures
        n == chunk_count(rest, bits),
{
    let mut left = rest;
    let mut n: usize = 0;
    while left != 0
        invariant
            0 < bits < 64,
            n + chunk_count(left, bits) == chunk_count(rest, bits),
            chunk_count(rest, bits) <= max,
        decreases left,
    {
        proof {
            lemma_shift_shrinks(left, bits);
        }
        left = left >> bits;
        n = n + 1;
    }
    n
}

/// Reader of 4-bit chunks.
pub struct ChunksU4(pub u64);

/// Reader of 5-bit chunks.
pub struct ChunksU5(pub u64);

/// Reader of 6-bit chunks.
pub struct ChunksU6(pub u64);

impl BitChunks for ChunksU4 {
    const CHUNK_BITS: u32 = 4;

    const MAX_CHUNKS: usize = 16;

    const CHUNK_MASK: u64 = 0x0f;
}

impl BitChunks for ChunksU5 {
    const CHUNK_BITS: u32 = 5;

    const MAX_CHUNKS: usize = 13;

    const CHUNK_MASK: u64 = 0x1f;
}

impl BitChunks for ChunksU6 {
    const CHUNK_BITS: u32 = 6;

    const MAX_CHUNKS: usize = 11;

    const CHUNK_MASK: u64 = 0x3f;
}

impl ChunksU4 {
    /// Hands out the lowest 4 bits, or `None` once no set bit is left.
    pub fn next(&mut self) -> (out: Option<u8>)
        ensures
            final(self).0 == old(self).0 >> 4u32,
            out is None <==> old(self).0 == 0,
            chunk_or_zero(out) == old(self).0 & 0x0f,
            chunk_or_zero(out) <= 0x0f,
    {
        take_chunk(&mut self.0, Self::CHUNK_BITS, Self::CHUNK_MASK)
    }

    /// Number of chunks that `next` still hands out.
    pub fn len(&self) -> (n: usize)
        ensures
            n == chunk_count(self.0, 4),
            n <= Self::MAX_CHUNKS,
    {
        proof {
            lemma_max_chunks_u4(self.0);
        }
        count_chunks(self.0, Self::CHUNK_BITS, Self::MAX_CHUNKS)
    }
}

impl ChunksU5 {
    /// Hands out the lowest 5 bits, or `None` once no set bit is left.
    pub fn next(&mut self) -> (out: Option<u8>)
        ensures
            final(self).0 == old(self).0 >> 5u32,
            out is None <==> old(self).0 == 0,
            chunk_or_zero(out) == old(self).0 & 0x1f,
            chunk_or_zero(out) <= 0x1f,
    {
        take_chunk(&mut self.0, Self::CHUNK_BITS, Self::CHUNK_MASK)
    }

    /// Number of chunks that `next` still hands out.
    pub fn len(&self) -> (n: usize)
        ensures
            n == chunk_count(self.0, 5),
            n <= Self::MAX_CHUNKS,
    {
        proof {
            lemma_max_chunks_u5(self.0);
        }
        count_chunks(self.0, Self::CHUNK_BITS, Self::MAX_CHUNKS)
    }
}

impl ChunksU6 {
    /// Hands out the lowest 6 bits, or `None` once no set bit is left.
    pub fn next(&mut self) -> (out: Option<u8>)
        ensures
            final(self).0 == old(self).0 >> 6u32,
            out is None <==> old(self).0 == 0,
            chunk_or_zero(out) == old(self).0 & 0x3f,
            chunk_or_zero(out) <= 0x3f,
    {
        take_chunk(&mut self.0, Self::CHUNK_BITS, Self::CHUNK_MASK)
    }

    /// Number of chunks that `next` still hands out.
    pub fn len(&self) -> (n: usize)
        ensures
            n == chunk_count(self.0, 6),
            n <= Self::MAX_CHUNKS,
    {
        proof {
            lemma_max_chunks_u6(self.0);
        }
        count_chunks(self.0, Self::CHUNK_BITS, Self::MAX_CHUNKS)
    }
}

proof fn lemma_sixteen_nibbles(value: u64)
    by (bit_vector)
    ensures
        value >> 4u32 >> 4u32 >> 4u32 >> 4u32 >> 4u32 >> 4u32 >> 4u32 >> 4u32 >> 4u32 >> 4u32
            >> 4u32 >> 4u32 >> 4u32 >> 4u32 >> 4u32 >> 4u32 == 0,
{
}

proof fn lemma_thirteen_quintets(value: u64)
    by (bit_vector)
    ensures
        value >> 5u32 >> 5u32 >> 5u32 >> 5u32 >> 5u32 >> 5u32 >> 5u32 >> 5u32 >> 5u32 >> 5u32
            >> 5u32 >> 5u32 >> 5u32 == 0,
{
}

proof fn lemma_eleven_sextets(value: u64)
    by (bit_vector)
    ensures
        value >> 6u32 >> 6u32 >> 6u32 >> 6u32 >> 6u32 >> 6u32 >> 6u32 >> 6u32 >> 6u32 >> 6u32
            >> 6u32 == 0,
{
}

/// A reader of 4-bit chunks is exhausted after at most 16 chunks.
pub proof fn lemma_max_chunks_u4(value: u64)
    ensures
        chunk_count(value, 4) <= 16,
{
    lemma_sixteen_nibbles(value);
    reveal_with_fuel(chunk_count, 17);
}

/// A reader of 5-bit chunks is exhausted after at most 13 chunks.
pub proof fn lemma_max_chunks_u5(value: u64)
    ensures
        chunk_count(value, 5) <= 13,
{
    lemma_thirteen_quintets(value);
    reveal_with_fuel(chunk_count, 14);
}

/// A reader of 6-bit chunks is exhausted after at most 11 chunks.
pub proof fn lemma_max_chunks_u6(value: u64)
    ensures
        chunk_count(value, 6) <= 11,
{
    lemma_eleven_sextets(value);
    reveal_with_fuel(chunk_count, 12);
}

} // verus!
