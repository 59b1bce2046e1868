//! Friend codes: the ten-character alias of an identifier's low 32 bits.
//!
//! A friend code interleaves the eight nibbles of the low word with one
//! check bit each, writes the resulting 40-bit number in a 32-symbol
//! alphabet, and drops the constant `AAAA-` that the writing starts with.

use crate::bit_chunks::{chunk_at, lemma_rest_step, rest_after, ChunksU4, ChunksU5};
use crate::steam_id::{SteamId, SteamIdError};
use crate::text::push_char;
use byteorder::{ByteOrder, LittleEndian};
use vstd::array::array_as_slice;
use vstd::bytes::{spec_u64_to_le_bytes, u64_to_le_bytes};
use vstd::prelude::*;
use vstd::slice::slice_to_vec;
use vstd::string::StringSliceAdditionalSpecFns;
use vstd::utf8::{encode_utf8, is_ascii_chars_encode_utf8};

verus! {

/// The 32 symbols of a friend code, in the order of their indices:
/// the capital letters without `I` and `O`, then the digits `2` to `9`.
pub open spec fn alphabet() -> Seq<u8> {
    seq![
        0x41, 0x42, 0x43, 0x44, 0x45, 0x46, 0x47, 0x48,
        0x4a, 0x4b, 0x4c, 0x4d, 0x4e,
        0x50, 0x51, 0x52, 0x53, 0x54, 0x55, 0x56, 0x57, 0x58, 0x59, 0x5a,
        0x32, 0x33, 0x34, 0x35, 0x36, 0x37, 0x38, 0x39,
    ]
}

/// The symbol that stands for `index`, for an index below 32.
pub open spec fn symbol_of(index: u8) -> Option<u8> {
    if index < 32 {
        Some(alphabet()[index as int])
    } else {
        None
    }
}

/// The index that `symbol` stands for, where it is in the alphabet.
pub open spec fn index_of(symbol: u8) -> Option<u8> {
    if alphabet().contains(symbol) {
        Some(alphabet().index_of(symbol) as u8)
    } else {
        None
    }
}

/// Where each index sits in the alphabet, and that no symbol occurs twice.
pub proof fn lemma_alphabet()
    ensures
        alphabet().len() == 32,
        forall|i: int| 0 <= i < 8 ==> #[trigger] alphabet()[i] == 0x41 + i,
        forall|i: int| 8 <= i < 13 ==> #[trigger] alphabet()[i] == 0x42 + i,
        forall|i: int| 13 <= i < 24 ==> #[trigger] alphabet()[i] == 0x43 + i,
        forall|i: int| 24 <= i < 32 ==> #[trigger] alphabet()[i] == 0x32 + i - 24,
        forall|i: int, j: int|
            0 <= i < 32 && 0 <= j < 32 && #[trigger] alphabet()[i] == #[trigger] alphabet()[j]
                ==> i == j,
{
}

/// The symbol of an index reads back as that index, and the index of a
/// symbol writes that symbol; the look-alikes `I`, `O`, `0` and `1` are no
/// symbols.
pub proof fn lemma_symbol_round_trip(index: u8, symbol: u8)
    ensures
        index < 32 ==> symbol_of(index) is Some && index_of(symbol_of(index).unwrap()) == Some(
            index,
        ),
        index_of(symbol) matches Some(i) ==> i < 32 && symbol_of(i) == Some(symbol),
        index_of(0x49) is None,
        index_of(0x4f) is None,
        index_of(0x30) is None,
        index_of(0x31) is None,
{
    lemma_alphabet();
    if index < 32 {
        let s = alphabet()[index as int];
        assert(alphabet().contains(s));
    }
    if alphabet().contains(symbol) {
        let i = alphabet().index_of(symbol);
        assert(0 <= i < 32 && alphabet()[i] == symbol);
    }
}

/// The symbol that stands for `index`.
pub fn to_symbol(index: u8) -> (symbol: Option<u8>)
    ensures
        symbol == symbol_of(index),
{
    proof {
        lemma_alphabet();
    }
    if index <= 7 {
        Some(0x41 + index)
    } else if index <= 12 {
        Some(0x41 + index + 1)
    } else if index <= 23 {
        Some(0x41 + index + 2)
    } else if index <= 31 {
        Some(0x32 + index - 24)
    } else {
        None
    }
}

/// The index that `sym` stands for.
pub fn from_symbol(sym: u8) -> (index: Option<u8>)
    ensures
        index == index_of(sym),
{
    proof {
        lemma_alphabet();
    }
    let index = if 0x41 <= sym && sym <= 0x48 {
        Some(sym - 0x41)
    } else if 0x4a <= sym && sym <= 0x4e {
        Some(sym - 0x41 - 1)
    } else if 0x50 <= sym && sym <= 0x5a {
        Some(sym - 0x41 - 2)
    } else if 0x32 <= sym && sym <= 0x39 {
        Some(sym - 0x32 + 24)
    } else {
        None
    };
    proof {
        match index {
            Some(i) => {
                assert(alphabet()[i as int] == sym);
                assert(alphabet().contains(sym));
                let j = alphabet().index_of(sym);
                assert(0 <= j < 32 && alphabet()[j] == sym);
            },
            None => {
                if alphabet().contains(sym) {
                    let j = alphabet().index_of(sym);
                    assert(0 <= j < 32 && alphabet()[j] == sym);
                }
            },
        }
    }
    index
}

/// `word` with the order of its eight bytes reversed.
pub open spec fn swapped(word: u64) -> u64 {
    ((word & 0xff) << 56u64) | ((word & 0xff00) << 40u64) | ((word & 0xff_0000) << 24u64) | ((word
        & 0xff00_0000) << 8u64) | ((word >> 8u64) & 0xff00_0000) | ((word >> 24u64) & 0xff_0000) | (
    (word >> 40u64) & 0xff00) | ((word >> 56u64) & 0xff)
}

/// Reverses the order of the eight bytes of `word`.
pub fn swap_bytes(word: u64) -> (reversed: u64)
    ensures
        reversed == swapped(word),
{
    ((word & 0xff) << 56) | ((word & 0xff00) << 40) | ((word & 0xff_0000) << 24) | ((word
        & 0xff00_0000) << 8) | ((word >> 8) & 0xff00_0000) | ((word >> 24) & 0xff_0000) | ((word
        >> 40) & 0xff00) | ((word >> 56) & 0xff)
}

/// The number of digits written before `position` of the 15-character
/// text, which for a position that holds a symbol is the digit written
/// there; the positions 4 and 10 hold dashes.
pub open spec fn slot_of(position: int) -> nat {
    if position <= 4 {
        position as nat
    } else if position <= 10 {
        (position - 1) as nat
    } else {
        (position - 2) as nat
    }
}

/// The position of the 15-character text at which digit `slot` is written.
pub open spec fn position_of(slot: int) -> int {
    if slot < 4 {
        slot
    } else if slot < 9 {
        slot + 1
    } else {
        slot + 2
    }
}

/// The 15-character text of `word`: the thirteen 5-bit digits of the
/// byte-reversed word, lowest digit first, each as its symbol, in groups of
/// four, five and four symbols with a dash between the groups.
pub open spec fn base32_text(word: u64) -> Seq<u8> {
    Seq::new(
        15,
        |position: int|
            if position == 4 || position == 10 {
                0x2du8
            } else {
                alphabet()[chunk_at(swapped(word), 5, slot_of(position)) as int]
            },
    )
}

/// The thirteen digits that the symbols of a 15-character text stand for; a
/// character that is no symbol counts as zero here.
pub open spec fn text_digits(code: Seq<u8>) -> Seq<u8> {
    Seq::new(
        13,
        |slot: int|
            match index_of(code[position_of(slot)]) {
                Some(index) => index,
                None => 0,
            },
    )
}

/// Whether each of the thirteen symbol positions of `code` holds a symbol.
pub open spec fn all_symbols(code: Seq<u8>) -> bool {
    forall|slot: int| 0 <= slot < 13 ==> index_of(#[trigger] code[position_of(slot)]) is Some
}

/// The lowest `count` digits put together again, digit `k` at bit `5 * k`.
/// Of the thirteenth digit only the low four bits fit in the word.
pub open spec fn packed(digits: Seq<u8>, count: nat) -> u64
    decreases count,
{
    if count == 0 {
        0
    } else {
        packed(digits, (count - 1) as nat) | ((digits[count - 1] as u64) << ((5 * (count
            - 1)) as u64))
    }
}

/// The word that a 15-character text writes. The two positions between
/// the groups are not looked at.
pub open spec fn base32_word(code: Seq<u8>) -> Option<u64> {
    if code.len() == 15 && all_symbols(code) {
        Some(swapped(packed(text_digits(code), 13)))
    } else {
        None
    }
}

/// Writes `num` as 15 characters. Every 5-bit digit has a symbol, so there
/// always is a text.
pub fn base32_encode(num: u64) -> (text: Option<[u8; 15]>)
    ensures
        text is Some,
        text.unwrap()@ == base32_text(num),
{
    let ghost source = swapped(num);
    let mut chunks = ChunksU5(swap_bytes(num));
    let mut buf = [0u8;15];
    let mut slot: usize = 0;
    let mut i: usize = 0;
    proof {
        lemma_rest_step(source, 5, 0);
    }
    while i < 15
        invariant
            i <= 15,
            source == swapped(num),
            slot == slot_of(i as int),
            chunks.0 == rest_after(source, 5, slot as nat),
            forall|p: int| 0 <= p < i ==> #[trigger] buf@[p] == base32_text(num)[p],
        decreases 15 - i,
    {
        if i == 4 || i == 10 {
            buf[i] = 0x2d;
        } else {
            proof {
                lemma_rest_step(source, 5, slot as nat);
            }
            let digit = match chunks.next() {
                Some(digit) => digit,
                None => 0,
            };
            match to_symbol(digit) {
                Some(symbol) => {
                    buf[i] = symbol;
                },
                None => {
                    return None;
                },
            }
            slot = slot + 1;
        }
        i = i + 1;
    }
    assert(buf@ == base32_text(num));
    Some(buf)
}

/// Reads the word that a 15-character text writes.
pub fn base32_decode(code: &[u8]) -> (word: Option<u64>)
    ensures
        word == base32_word(code@),
{
    if code.len() != 15 {
        return None;
    }
    let mut result: u64 = 0;
    let mut slot: usize = 0;
    let mut i: usize = 0;
    while slot < 13
        invariant
            slot <= 13,
            code@.len() == 15,
            i == position_of(slot as int),
            result == packed(text_digits(code@), slot as nat),
            forall|k: int| 0 <= k < slot ==> index_of(#[trigger] code@[position_of(k)]) is Some,
        decreases 13 - slot,
    {
        match from_symbol(code[i]) {
            Some(digit) => {
                proof {
                    lemma_symbol_round_trip(0, code@[i as int]);
                    assert(text_digits(code@)[slot as int] == digit);
                }
                result = result | ((digit as u64) << (5 * slot as u64));
            },
            None => {
                return None;
            },
        }
        slot = slot + 1;
        i = i + 1;
        if i == 4 || i == 10 {
            i = i + 1;
        }
    }
    Some(swap_bytes(result))
}

/// The MD5 digest of `data`.
pub uninterp spec fn md5_digest(data: Seq<u8>) -> Seq<u8>;

/// Computes the MD5 digest of `data`.
///
/// Calls `md5::compute` and hands out the sixteen bytes of its digest. The
/// digest is a function of the data alone; nothing else is claimed of it.
#[verifier::external_body]
fn md5_compute(data: &[u8]) -> (digest: [u8; 16])
    ensures
        digest@ == md5_digest(data@),
{
    md5::compute(data).0
}

/// The 32-bit number whose bytes, lowest first, are the first four of `bytes`.
pub open spec fn le_u32(bytes: Seq<u8>) -> u32 {
    (bytes[0] as u32) | ((bytes[1] as u32) << 8u32) | ((bytes[2] as u32) << 16u32) | ((
    bytes[3] as u32) << 24u32)
}

/// Reads a little-endian 32-bit number from the start of `buf`.
///
/// Calls `byteorder::LittleEndian::read_u32`, which reads the first four
/// bytes, lowest byte first, and panics on a shorter buffer.
#[verifier::external_body]
fn read_u32_le(buf: &[u8]) -> (value: u32)
    requires
        buf@.len() >= 4,
    ensures
        value == le_u32(buf@),
{
    LittleEndian::read_u32(buf)
}

/// The word with `low` as its low half and `high` as its high half.
pub fn u32x2_to_u64(low: u32, high: u32) -> (word: u64)
    ensures
        word == ((high as u64) << 32u64) | (low as u64),
{
    ((high as u64) << 32) | (low as u64)
}

/// The tag that fills the high half of the hashed word: `CSGO` in ASCII.
pub const HASH_FILLER: u64 = 0x4353_474f_0000_0000;

/// The bits of an identifier that a friend code does not carry are read as
/// instance 1, type individual, universe public.
pub const DEFAULT_STEAM_ID: u64 = 0x0110_0001_0000_0000;

/// The eight bytes that are hashed for `raw`: its low half, lowest byte
/// first, then the tag.
pub open spec fn hash_input(raw: u64) -> Seq<u8> {
    spec_u64_to_le_bytes((raw & 0xffff_ffff) | HASH_FILLER)
}

/// The check word of `raw`: the first four bytes of the MD5 digest of its
/// hash input, read lowest byte first.
pub open spec fn check_word(raw: u64) -> u32 {
    le_u32(md5_digest(hash_input(raw)))
}

/// The first `count` nibbles of `raw`, lowest nibble first, each followed
/// by one bit of `hash`, written as 5-bit digits with the first digit
/// highest.
pub open spec fn interleaved(raw: u64, hash: u32, count: nat) -> u64
    decreases count,
{
    if count == 0 {
        0
    } else {
        (interleaved(raw, hash, (count - 1) as nat) << 5u64) | (chunk_at(
            raw,
            4,
            (count - 1) as nat,
        ) << 1u64) | (((hash >> ((count - 1) as u32)) & 1) as u64)
    }
}

/// The 40-bit word that the friend code of `raw` writes.
pub open spec fn friend_word(raw: u64, hash: u32) -> u64 {
    interleaved(raw, hash, 8)
}

/// The nibbles that the lowest `count` 5-bit digits of `word` carry above
/// their check bit, the lowest digit's nibble highest.
pub open spec fn nibbles(word: u64, count: nat) -> u64
    decreases count,
{
    if count == 0 {
        0
    } else {
        (nibbles(word, (count - 1) as nat) << 4u64) | ((chunk_at(word, 5, (count - 1) as nat)
            & 0x1e) >> 1u64)
    }
}

/// The identifier that a friend-code word stands for.
pub open spec fn decoded_id(word: u64) -> u64 {
    nibbles(word, 8) | DEFAULT_STEAM_ID
}

/// The friend code of `raw` with check word `hash`: the last ten characters
/// of the 15-character text of the friend-code word.
pub open spec fn friend_code_text(raw: u64, hash: u32) -> Seq<char> {
    Seq::new(10, |i: int| base32_text(friend_word(raw, hash))[i + 5] as char)
}

/// The 15-character text that a friend code is short for.
pub open spec fn full_text(code: Seq<u8>) -> Seq<u8> {
    seq![0x41u8, 0x41u8, 0x41u8, 0x41u8, 0x2du8] + code
}

/// The identifier that the bytes of a friend code stand for: a code that is
/// not ten bytes long has the wrong format; one with a character outside
/// the alphabet at a symbol position has a wrong symbol.
pub open spec fn friend_code_id(code: Seq<u8>) -> Result<SteamId, SteamIdError> {
    if code.len() != 10 {
        Err(SteamIdError::InvalidFormat)
    } else {
        match base32_word(full_text(code)) {
            Some(word) => Ok(SteamId(decoded_id(word))),
            None => Err(SteamIdError::InvalidSymbol),
        }
    }
}

proof fn lemma_mix(r: u64, nibble: u8, bit: u32)
    by (bit_vector)
    requires
        nibble <= 15,
        bit <= 1,
    ensures
        ({
            let a = ((r << 4u64) as u32) | (nibble as u32);
            let folded = ((((r >> 28u64) as u32) as u64) << 32u64) | (a as u64);
            ((((folded >> 31u64) as u32) as u64) << 32u64) | (((a << 1u32) | bit) as u64)
        }) == (r << 5u64) | ((nibble as u64) << 1u64) | (bit as u64),
{
}

impl SteamId {
    /// The check word of this identifier.
    pub fn hash(self) -> (hash: u32)
        ensures
            hash == check_word(self.0),
    {
        let bytes = u64_to_le_bytes((self.0 & 0xffff_ffff) | HASH_FILLER);
        let digest = md5_compute(bytes.as_slice());
        read_u32_le(array_as_slice(&digest))
    }

    /// The friend code of this identifier.
    pub fn to_friend_code(self) -> (code: Option<String>)
        ensures
            code is Some,
            code.unwrap()@ == friend_code_text(self.0, check_word(self.0)),
    {
        let hash = self.hash();
        self.friend_code_with_hash(hash)
    }

    /// The friend code of this identifier, given its check word.
    pub fn friend_code_with_hash(self, hash: u32) -> (code: Option<String>)
        ensures
            code is Some,
            code.unwrap()@ == friend_code_text(self.0, hash),
    {
        let mut r: u64 = 0;
        let mut chunks = ChunksU4(self.0);
        let mut i: u32 = 0;
        proof {
            lemma_rest_step(self.0, 4, 0);
        }
        while i < 8
            invariant
                i <= 8,
                r == interleaved(self.0, hash, i as nat),
                chunks.0 == rest_after(self.0, 4, i as nat),
            decreases 8 - i,
        {
            proof {
                lemma_rest_step(self.0, 4, i as nat);
            }
            let nibble = match chunks.next() {
                Some(nibble) => nibble,
                None => 0,
            };
            let bit = (hash >> i) & 1;
            proof {
                assert((hash >> i) & 1 <= 1) by (bit_vector);
                lemma_mix(r, nibble, bit);
            }
            let a = ((r << 4) as u32) | (nibble as u32);
            r = u32x2_to_u64(a, (r >> 28) as u32);
            r = u32x2_to_u64((a << 1) | bit, (r >> 31) as u32);
            i = i + 1;
        }
        let bytes = match base32_encode(r) {
            Some(bytes) => bytes,
            None => {
                return None;
            },
        };
        proof {
            lemma_text_prefix(self.0, hash);
        }
        if bytes[0] != 0x41 || bytes[1] != 0x41 || bytes[2] != 0x41 || bytes[3] != 0x41 || bytes[4]
            != 0x2d {
            return None;
        }
        let mut code = String::new();
        let mut k: usize = 5;
        while k < 15
            invariant
                5 <= k <= 15,
                bytes@ == base32_text(friend_word(self.0, hash)),
                code@ == friend_code_text(self.0, hash).subrange(0, k - 5),
            decreases 15 - k,
        {
            proof {
                lemma_text_is_ascii(friend_word(self.0, hash), k as int);
            }
            push_char(&mut code, bytes[k] as char);
            k = k + 1;
        }
        Some(code)
    }

    /// The identifier that a friend code stands for, or why the code was
    /// not accepted.
    pub fn try_from_friend_code(code: &str) -> (id: Result<SteamId, SteamIdError>)
        ensures
            id == friend_code_id(code.spec_bytes()),
    {
        let code = code.as_bytes();
        if code.len() != 10 {
            return Err(SteamIdError::InvalidFormat);
        }
        let mut buf: Vec<u8> = Vec::with_capacity(15);
        buf.push(0x41);
        buf.push(0x41);
        buf.push(0x41);
        buf.push(0x41);
        buf.push(0x2d);
        let mut tail = slice_to_vec(code);
        buf.append(&mut tail);
        assert(buf@ == full_text(code@));
        let decoded = match base32_decode(buf.as_slice()) {
            Some(decoded) => decoded,
            None => {
                return Err(SteamIdError::InvalidSymbol);
            },
        };
        let mut chunks = ChunksU5(decoded);
        let mut steam_id: u64 = 0;
        let mut i: usize = 0;
        proof {
            lemma_rest_step(decoded, 5, 0);
        }
        while i < 8
            invariant
                i <= 8,
                steam_id == nibbles(decoded, i as nat),
                chunks.0 == rest_after(decoded, 5, i as nat),
            decreases 8 - i,
        {
            proof {
                lemma_rest_step(decoded, 5, i as nat);
            }
            let chunk = match chunks.next() {
                Some(chunk) => chunk,
                None => 0,
            };
            steam_id = steam_id << 4;
            steam_id = steam_id | (((chunk & 0x1e) >> 1) as u64);
            proof {
                let c = chunk_at(decoded, 5, i as nat);
                assert((((c as u8) & 0x1e) >> 1u8) as u64 == (c & 0x1e) >> 1u64) by (bit_vector)
                    requires
                        c <= 0x1f,
                ;
            }
            i = i + 1;
        }
        Ok(SteamId(steam_id | DEFAULT_STEAM_ID))
    }

    /// The identifier that a friend code stands for.
    pub fn from_friend_code(code: &str) -> (id: Option<SteamId>)
        ensures
            id == match friend_code_id(code.spec_bytes()) {
                Ok(id) => Some(id),
                Err(_) => None,
            },
    {
        match SteamId::try_from_friend_code(code) {
            Ok(id) => Some(id),
            Err(_) => None,
        }
    }
}

/// A friend-code word has no bit above bit 39, so its text starts with the
/// four symbols of zero and a dash.
pub proof fn lemma_text_prefix(raw: u64, hash: u32)
    ensures
        friend_word(raw, hash) >> 40u64 == 0,
        base32_text(friend_word(raw, hash)).subrange(0, 5) == seq![
            0x41u8,
            0x41u8,
            0x41u8,
            0x41u8,
            0x2du8,
        ],
{
    let word = friend_word(raw, hash);
    lemma_word_round_trip(raw, hash);
    lemma_low_digits_zero(word);
    lemma_alphabet();
    let text = base32_text(word);
    assert(text[0] == 0x41);
    assert(text[1] == 0x41);
    assert(text[2] == 0x41);
    assert(text[3] == 0x41);
    assert(text[4] == 0x2d);
    assert(text.subrange(0, 5) == seq![0x41u8, 0x41u8, 0x41u8, 0x41u8, 0x2du8]);
}

proof fn lemma_low_digits_zero(word: u64)
    requires
        word >> 40u64 == 0,
    ensures
        chunk_at(swapped(word), 5, 0) == 0,
        chunk_at(swapped(word), 5, 1) == 0,
        chunk_at(swapped(word), 5, 2) == 0,
        chunk_at(swapped(word), 5, 3) == 0,
{
    let s = swapped(word);
    assert(s & 0x1f == 0 && (s >> 5u64) & 0x1f == 0 && (s >> 10u64) & 0x1f == 0 && (s >> 15u64)
        & 0x1f == 0) by (bit_vector)
        requires
            s == swapped(word),
            word >> 40u64 == 0,
    ;
    lemma_rest_step(s, 5, 0);
    assert(s >> 0u64 == s) by (bit_vector);
}

/// Every character of the text of a word is a symbol or a dash, and so an
/// ASCII character.
pub proof fn lemma_text_is_ascii(word: u64, position: int)
    requires
        0 <= position < 15,
    ensures
        base32_text(word)[position] < 0x80,
{
    lemma_alphabet();
    if position != 4 && position != 10 {
        lemma_rest_step(swapped(word), 5, slot_of(position));
    }
}

/// Decoding the friend-code word of an identifier gives back the low half
/// of the identifier, whatever the check word, under the fixed high half.
pub proof fn lemma_word_round_trip(raw: u64, hash: u32)
    ensures
        friend_word(raw, hash) >> 40u64 == 0,
        decoded_id(friend_word(raw, hash)) == (raw & 0xffff_ffff) | DEFAULT_STEAM_ID,
{
    assert(friend_word(raw, hash) >> 40u64 == 0 && decoded_id(friend_word(raw, hash)) == (raw
        & 0xffff_ffff) | DEFAULT_STEAM_ID) by (bit_vector);
}

proof fn lemma_digits_rebuild(s: u64)
    by (bit_vector)
    ensures
        (s & 0x1f) | (((s >> 5u64) & 0x1f) << 5u64) | (((s >> 10u64) & 0x1f) << 10u64) | (((s
            >> 15u64) & 0x1f) << 15u64) | (((s >> 20u64) & 0x1f) << 20u64) | (((s >> 25u64) & 0x1f)
            << 25u64) | (((s >> 30u64) & 0x1f) << 30u64) | (((s >> 35u64) & 0x1f) << 35u64) | (((s
            >> 40u64) & 0x1f) << 40u64) | (((s >> 45u64) & 0x1f) << 45u64) | (((s >> 50u64) & 0x1f)
            << 50u64) | (((s >> 55u64) & 0x1f) << 55u64) | (((s >> 60u64) & 0x1f) << 60u64) == s,
        swapped(swapped(s)) == s,
        0u64 | (s & 0x1f) == s & 0x1f,
        s >> 0u64 == s,
        (s & 0x1f) << 0u64 == s & 0x1f,
{
}

/// Reading the 15-character text of a word gives the word back.
pub proof fn lemma_base32_round_trip(word: u64)
    ensures
        base32_word(base32_text(word)) == Some(word),
{
    let s = swapped(word);
    let text = base32_text(word);
    let digits = text_digits(text);
    lemma_alphabet();
    assert forall|slot: int| 0 <= slot < 13 implies index_of(#[trigger] text[position_of(slot)])
        == Some(chunk_at(s, 5, slot as nat) as u8) by {
        lemma_rest_step(s, 5, slot as nat);
        let digit = chunk_at(s, 5, slot as nat) as u8;
        assert(slot_of(position_of(slot)) == slot);
        assert(text[position_of(slot)] == alphabet()[digit as int]);
        lemma_symbol_round_trip(digit, 0);
    }
    assert forall|slot: int| 0 <= slot < 13 implies #[trigger] digits[slot] as u64 == chunk_at(
        s,
        5,
        slot as nat,
    ) by {
        lemma_rest_step(s, 5, slot as nat);
        assert(index_of(text[position_of(slot)]) == Some(chunk_at(s, 5, slot as nat) as u8));
    }
    assert(all_symbols(text));
    lemma_digits_rebuild(s);
    lemma_digits_rebuild(word);
    assert(packed(digits, 13) == s) by {
        reveal_with_fuel(packed, 14);
        assert(digits[0] as u64 == chunk_at(s, 5, 0));
        assert(digits[1] as u64 == chunk_at(s, 5, 1));
        assert(digits[2] as u64 == chunk_at(s, 5, 2));
        assert(digits[3] as u64 == chunk_at(s, 5, 3));
        assert(digits[4] as u64 == chunk_at(s, 5, 4));
        assert(digits[5] as u64 == chunk_at(s, 5, 5));
        assert(digits[6] as u64 == chunk_at(s, 5, 6));
        assert(digits[7] as u64 == chunk_at(s, 5, 7));
        assert(digits[8] as u64 == chunk_at(s, 5, 8));
        assert(digits[9] as u64 == chunk_at(s, 5, 9));
        assert(digits[10] as u64 == chunk_at(s, 5, 10));
        assert(digits[11] as u64 == chunk_at(s, 5, 11));
        assert(digits[12] as u64 == chunk_at(s, 5, 12));
        lemma_rest_step(s, 5, 0);
    }
}

/// Decoding the friend code of an identifier gives back the low 32 bits
/// of the identifier under the fixed high bits, whatever the check word:
/// account number and `Y` are kept, and an individual account of instance
/// 1 in the public universe is given back whole.
pub proof fn lemma_friend_code_round_trip(id: SteamId, hash: u32)
    ensures
        friend_code_id(encode_utf8(friend_code_text(id.0, hash))) == Ok::<SteamId, SteamIdError>(
            SteamId((id.0 & 0xffff_ffff) | DEFAULT_STEAM_ID),
        ),
        SteamId((id.0 & 0xffff_ffff) | DEFAULT_STEAM_ID).spec_acc_nr() == id.spec_acc_nr(),
        SteamId((id.0 & 0xffff_ffff) | DEFAULT_STEAM_ID).spec_y() == id.spec_y(),
        id.spec_universe() == Some(crate::universe::Universe::Public) && id.spec_acc_type() == Some(
            crate::account_type::AccountType::Individual,
        ) && id.spec_instance() == 1 ==> friend_code_id(
            encode_utf8(friend_code_text(id.0, hash)),
        ) == Ok::<SteamId, SteamIdError>(id),
{
    let word = friend_word(id.0, hash);
    let chars = friend_code_text(id.0, hash);
    let text = base32_text(word);
    assert forall|i: int| 0 <= i < chars.len() implies '\0' <= #[trigger] chars[i] <= '\u{7f}' by {
        lemma_text_is_ascii(word, i + 5);
    }
    is_ascii_chars_encode_utf8(chars);
    let bytes = encode_utf8(chars);
    assert(bytes == text.subrange(5, 15)) by {
        assert forall|i: int| 0 <= i < 10 implies bytes[i] == text[i + 5] by {
            lemma_text_is_ascii(word, i + 5);
            assert(chars[i] as u8 == bytes[i]);
        }
    }
    lemma_text_prefix(id.0, hash);
    assert(full_text(bytes) == text) by {
        assert(text == text.subrange(0, 5) + text.subrange(5, 15));
    }
    lemma_base32_round_trip(word);
    lemma_word_round_trip(id.0, hash);
    let raw = id.0;
    assert({
        &&& (((raw & 0xffff_ffff) | DEFAULT_STEAM_ID) >> 1u64) & 0x7fff_ffff == (raw >> 1u64)
            & 0x7fff_ffff
        &&& ((raw & 0xffff_ffff) | DEFAULT_STEAM_ID) & 0x1 == raw & 0x1
        &&& ((raw >> 56u64) & 0xff == 1 && (raw >> 52u64) & 0xf == 1 && (raw >> 32u64) & 0xf_ffff
            == 1 ==> (raw & 0xffff_ffff) | DEFAULT_STEAM_ID == raw)
    }) by (bit_vector);
}

} // verus!
