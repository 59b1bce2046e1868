use steam_api::bit_chunks::{BitChunks, ChunksU4, ChunksU5, ChunksU6};

#[test]
fn u4_works() {
    assert_eq!(ChunksU4::MAX_CHUNKS, 16);
    assert_eq!(ChunksU4::CHUNK_BITS, 4);
    assert_eq!(ChunksU4::CHUNK_MASK, 0x0f);
    let mut chunks = ChunksU4(0xFFFF);
    assert_eq!(chunks.len(), 4);
    for expected in [0x0F, 0x0F, 0x0F, 0x0F] {
        assert_eq!(chunks.next(), Some(expected));
    }
    assert_eq!(chunks.next(), None);
    assert_eq!(chunks.len(), 0);
}

#[test]
fn u5_works() {
    assert_eq!(ChunksU5::MAX_CHUNKS, 13);
    assert_eq!(ChunksU5::CHUNK_BITS, 5);
    assert_eq!(ChunksU5::CHUNK_MASK, 0x1f);
    let mut chunks = ChunksU5(0xFFFF);
    assert_eq!(chunks.len(), 4);
    for expected in [0x1F, 0x1F, 0x1F, 0x01] {
        assert_eq!(chunks.next(), Some(expected));
    }
    assert_eq!(chunks.next(), None);
}

#[test]
fn u6_works() {
    assert_eq!(ChunksU6::MAX_CHUNKS, 11);
    assert_eq!(ChunksU6::CHUNK_BITS, 6);
    assert_eq!(ChunksU6::CHUNK_MASK, 0x3f);
    let mut chunks = ChunksU6(0xFFFF);
    assert_eq!(chunks.len(), 3);
    for expected in [0x3F, 0x3F, 0x0F] {
        assert_eq!(chunks.next(), Some(expected));
    }
    assert_eq!(chunks.next(), None);
}

#[test]
fn chunks_follow_the_shift_and_mask_formula() {
    let value: u64 = 0xf123_4567_89ab_cdef;
    let mut u4 = ChunksU4(value);
    for i in 0..16 {
        assert_eq!(u4.next(), Some(((value >> (4 * i)) & 0xf) as u8));
    }
    assert_eq!(u4.next(), None);
    let mut u5 = ChunksU5(value);
    for i in 0..13 {
        assert_eq!(u5.next(), Some(((value >> (5 * i)) & 0x1f) as u8));
    }
    assert_eq!(u5.next(), None);
    let mut u6 = ChunksU6(value);
    for i in 0..11 {
        assert_eq!(u6.next(), Some(((value >> (6 * i)) & 0x3f) as u8));
    }
    assert_eq!(u6.next(), None);
    // Where the high bits are zero the reader is exhausted early.
    let mut short = ChunksU5(0x0123_4567_89ab_cdef);
    assert_eq!(short.len(), 12);
    for _ in 0..12 {
        assert!(short.next().is_some());
    }
    assert_eq!(short.next(), None);
}

#[test]
fn a_full_word_fills_every_chunk() {
    let mut u4 = ChunksU4(u64::MAX);
    assert_eq!(u4.len(), 16);
    let mut u5 = ChunksU5(u64::MAX);
    assert_eq!(u5.len(), 13);
    let mut u6 = ChunksU6(u64::MAX);
    assert_eq!(u6.len(), 11);
    for _ in 0..15 {
        assert_eq!(u4.next(), Some(0x0f));
    }
    for _ in 0..12 {
        assert_eq!(u5.next(), Some(0x1f));
    }
    for _ in 0..10 {
        assert_eq!(u6.next(), Some(0x3f));
    }
    // The last chunk holds what is left of 64 bits: 4, 4 and 4 bits.
    assert_eq!(u4.next(), Some(0x0f));
    assert_eq!(u5.next(), Some(0x0f));
    assert_eq!(u6.next(), Some(0x0f));
    assert_eq!(u4.next(), None);
    assert_eq!(u5.next(), None);
    assert_eq!(u6.next(), None);
}

#[test]
fn a_zero_chunk_below_set_bits_is_handed_out() {
    let mut chunks = ChunksU4(0x100);
    assert_eq!(chunks.len(), 3);
    assert_eq!(chunks.next(), Some(0));
    assert_eq!(chunks.next(), Some(0));
    assert_eq!(chunks.next(), Some(1));
    assert_eq!(chunks.next(), None);
    assert_eq!(chunks.next(), None);
}

#[test]
fn an_empty_word_has_no_chunks() {
    let mut chunks = ChunksU5(0);
    assert_eq!(chunks.len(), 0);
    assert_eq!(chunks.next(), None);
    assert_eq!(chunks.0, 0);
}
