//! Texts: decimal numbers, comparison and search.
//!
//! Texts are looked at byte by byte, in their UTF-8 encoding.

use vstd::prelude::*;
use vstd::string::StringSliceAdditionalSpecFns;
use vstd::utf8::{
    encode_utf8, encode_utf8_decode_utf8, encode_utf8_valid_utf8, is_ascii_chars,
    is_ascii_chars_encode_utf8, is_char_boundary, is_char_boundary_iff_not_is_continuation_byte,
    is_char_boundary_start_end_of_seq, is_continuation_byte, length_of_first_scalar,
    pop_first_scalar, utf8_byte_ranges_bitwise, valid_first_scalar, valid_utf8, valid_utf8_split,
};

verus! {

/// Appends one character to `text`.
///
/// Calls `String::push`, which the standard library documents as appending
/// the given character to the end of the string.
#[verifier::external_body]
pub(crate) fn push_char(text: &mut String, c: char)
    ensures
        final(text)@ == old(text)@.push(c),
{
    text.push(c);
}

/// An empty string with room for `capacity` bytes.
///
/// Calls `String::with_capacity`, which the standard library documents as
/// creating an empty string; the room it reserves is not part of the value.
#[verifier::external_body]
pub(crate) fn string_with_capacity(capacity: usize) -> (text: String)
    requires
        capacity <= isize::MAX,
    ensures
        text@ == Seq::<char>::empty(),
{
    String::with_capacity(capacity)
}

/// Whether two texts are the same.
pub fn str_eq(left: &str, right: &str) -> (same: bool)
    ensures
        same == (left@ == right@),
{
    let a = left.as_bytes();
    let b = right.as_bytes();
    proof {
        encode_utf8_decode_utf8(left@);
        encode_utf8_decode_utf8(right@);
    }
    if a.len() != b.len() {
        return false;
    }
    let mut i: usize = 0;
    while i < a.len()
        invariant
            i <= a.len(),
            a.len() == b.len(),
            a@ == encode_utf8(left@),
            b@ == encode_utf8(right@),
            forall|k: int| 0 <= k < i ==> a@[k] == b@[k],
        decreases a.len() - i,
    {
        if a[i] != b[i] {
            return false;
        }
        i = i + 1;
    }
    assert(a@ == b@);
    true
}

/// The character that writes the decimal digit `digit`.
pub open spec fn digit_char(digit: nat) -> char {
    (0x30 + digit) as char
}

/// The decimal text of `value`, most significant digit first, without
/// leading zeros.
pub open spec fn decimal_text(value: nat) -> Seq<char>
    decreases value,
{
    if value < 10 {
        seq![digit_char(value)]
    } else {
        decimal_text(value / 10).push(digit_char(value % 10))
    }
}

/// Whether `byte` is one of the ASCII digits `0` to `9`.
pub open spec fn is_digit(byte: u8) -> bool {
    0x30 <= byte <= 0x39
}

/// Whether every byte of `bytes` is an ASCII digit.
pub open spec fn all_digits(bytes: Seq<u8>) -> bool {
    forall|i: int| 0 <= i < bytes.len() ==> is_digit(#[trigger] bytes[i])
}

/// The number that the digits `bytes` write in base ten.
pub open spec fn digits_value(bytes: Seq<u8>) -> nat
    decreases bytes.len(),
{
    if bytes.len() == 0 {
        0
    } else {
        10 * digits_value(bytes.drop_last()) + (bytes.last() - 0x30) as nat
    }
}

/// The 64-bit number that `bytes` write in decimal: one or more ASCII
/// digits whose value fits in 64 bits. Anything else writes no number: the
/// empty text, and a text with a sign, a blank or any other byte that is
/// no digit.
pub open spec fn parse_decimal(bytes: Seq<u8>) -> Option<u64> {
    if bytes.len() > 0 && all_digits(bytes) && digits_value(bytes) <= u64::MAX {
        Some(digits_value(bytes) as u64)
    } else {
        None
    }
}

/// The digits of a number that may be written with a plus sign: the text
/// itself, or what follows a leading plus sign.
pub open spec fn unsigned_digits(bytes: Seq<u8>) -> Seq<u8> {
    if bytes.len() > 0 && bytes[0] == 0x2b {
        bytes.subrange(1, bytes.len() as int)
    } else {
        bytes
    }
}

/// The 64-bit number that `bytes` write where a plus sign may stand before
/// the digits: what `parse_decimal` reads after one leading plus sign, if
/// there is one.
pub open spec fn parse_plus_decimal(bytes: Seq<u8>) -> Option<u64> {
    parse_decimal(unsigned_digits(bytes))
}

/// The bytes that encode a text of ASCII characters.
pub open spec fn ascii_bytes(chars: Seq<char>) -> Seq<u8> {
    Seq::new(chars.len(), |i: int| chars[i] as u8)
}

/// Appends the decimal text of `value` to `text`.
pub fn push_decimal(text: &mut String, value: u64)
    ensures
        final(text)@ == old(text)@ + decimal_text(value as nat),
    decreases value,
{
    if value >= 10 {
        push_decimal(text, value / 10);
    }
    let digit = (value % 10) as u8;
    push_char(text, (0x30 + digit) as char);
}

/// Reads an unsigned 64-bit number from decimal text: digits and nothing
/// else.
pub fn parse_u64(text: &str) -> (value: Option<u64>)
    ensures
        value == parse_decimal(text.spec_bytes()),
{
    parse_u64_bytes(text.as_bytes())
}

/// Reads an unsigned 64-bit number from the bytes of a decimal text.
pub fn parse_u64_bytes(bytes: &[u8]) -> (value: Option<u64>)
    ensures
        value == parse_decimal(bytes@),
{
    proof {
        assert(bytes@.subrange(0, bytes@.len() as int) == bytes@);
    }
    parse_from(bytes, 0)
}

/// Reads an unsigned 64-bit number from a text in which a plus sign may
/// stand before the digits.
pub fn parse_plus_u64(text: &str) -> (value: Option<u64>)
    ensures
        value == parse_plus_decimal(text.spec_bytes()),
{
    let bytes = text.as_bytes();
    proof {
        assert(bytes@.subrange(0, bytes@.len() as int) == bytes@);
    }
    if bytes.len() > 0 && bytes[0] == 0x2b {
        parse_from(bytes, 1)
    } else {
        parse_from(bytes, 0)
    }
}

/// Reads an unsigned 64-bit number from the bytes that start at `start`.
fn parse_from(bytes: &[u8], start: usize) -> (value: Option<u64>)
    requires
        start <= bytes@.len(),
    ensures
        value == parse_decimal(bytes@.subrange(start as int, bytes@.len() as int)),
{
    let len = bytes.len();
    let ghost digits = bytes@.subrange(start as int, len as int);
    if start == len {
        return None;
    }
    let mut acc: u64 = 0;
    let mut i: usize = start;
    while i < len
        invariant
            start <= i <= len,
            len == bytes@.len(),
            digits == bytes@.subrange(start as int, len as int),
            acc == digits_value(digits.subrange(0, i - start)),
            all_digits(digits.subrange(0, i - start)),
        decreases len - i,
    {
        let byte = bytes[i];
        let ghost seen = digits.subrange(0, i - start);
        let ghost next = digits.subrange(0, i - start + 1);
        proof {
            assert(next.drop_last() == seen);
            assert(next.last() == byte);
        }
        if byte < 0x30 || byte > 0x39 {
            proof {
                assert(digits[i - start] == byte);
            }
            return None;
        }
        let digit = (byte - 0x30) as u64;
        let grown = match acc.checked_mul(10) {
            Some(tens) => tens.checked_add(digit),
            None => None,
        };
        match grown {
            Some(sum) => {
                acc = sum;
            },
            None => {
                proof {
                    assert(digits_value(next) > u64::MAX);
                    lemma_digits_value_grows(digits, i - start + 1);
                    assert(digits.subrange(0, digits.len() as int) == digits);
                }
                return None;
            },
        }
        proof {
            assert forall|k: int| 0 <= k < next.len() implies is_digit(#[trigger] next[k]) by {
                if k < seen.len() {
                    assert(seen[k] == next[k]);
                }
            }
        }
        i = i + 1;
    }
    proof {
        assert(digits.subrange(0, digits.len() as int) == digits);
    }
    Some(acc)
}

/// A longer run of digits writes a number that is no smaller than the
/// number written by any of its prefixes.
pub proof fn lemma_digits_value_grows(digits: Seq<u8>, prefix: int)
    requires
        0 <= prefix <= digits.len(),
    ensures
        digits_value(digits.subrange(0, prefix)) <= digits_value(digits),
    decreases digits.len(),
{
    if prefix == digits.len() {
        assert(digits.subrange(0, prefix) == digits);
    } else {
        lemma_digits_value_grows(digits.drop_last(), prefix);
        assert(digits.drop_last().subrange(0, prefix) == digits.subrange(0, prefix));
    }
}

/// The decimal text of a number is made of ASCII digits, and those digits
/// write the number.
pub proof fn lemma_decimal_text_digits(value: nat)
    ensures
        decimal_text(value).len() > 0,
        is_ascii_chars(decimal_text(value)),
        all_digits(ascii_bytes(decimal_text(value))),
        digits_value(ascii_bytes(decimal_text(value))) == value,
    decreases value,
{
    let text = decimal_text(value);
    let bytes = ascii_bytes(text);
    if value < 10 {
        assert(bytes.drop_last().len() == 0);
        assert(digits_value(bytes.drop_last()) == 0);
        assert(bytes.last() == 0x30 + value);
    } else {
        let head = decimal_text(value / 10);
        lemma_decimal_text_digits(value / 10);
        assert(bytes.drop_last() == ascii_bytes(head));
        assert(bytes.last() == 0x30 + value % 10);
        assert forall|i: int| 0 <= i < bytes.len() implies is_digit(#[trigger] bytes[i]) by {
            if i < head.len() {
                assert(bytes[i] == ascii_bytes(head)[i]);
            }
        }
        assert forall|i: int| 0 <= i < text.len() implies '\0' <= #[trigger] text[i] <= '\u{7f}' by {
            if i < head.len() {
                assert(text[i] == head[i]);
            }
        }
    }
}

/// Reading the decimal text of a number gives the number back.
pub proof fn lemma_decimal_round_trip(value: u64)
    ensures
        parse_decimal(encode_utf8(decimal_text(value as nat))) == Some(value),
{
    let text = decimal_text(value as nat);
    lemma_decimal_text_digits(value as nat);
    is_ascii_chars_encode_utf8(text);
    assert(encode_utf8(text) == ascii_bytes(text));
}

/// Whether `pattern` stands in `text` at the place `at`.
pub open spec fn occurs_at(text: Seq<u8>, pattern: Seq<u8>, at: int) -> bool {
    0 <= at && at + pattern.len() <= text.len() && text.subrange(at, at + pattern.len())
        == pattern
}

/// The first place at or after `from` at which `pattern` stands in `text`.
pub open spec fn find_from(text: Seq<u8>, pattern: Seq<u8>, from: int) -> Option<int>
    decreases text.len() + 1 - from,
{
    if from < 0 || from + pattern.len() > text.len() {
        None
    } else if occurs_at(text, pattern, from) {
        Some(from)
    } else {
        find_from(text, pattern, from + 1)
    }
}

/// The first place at which `pattern` stands in `text`.
pub open spec fn first_occurrence(text: Seq<u8>, pattern: Seq<u8>) -> Option<int> {
    find_from(text, pattern, 0)
}

/// What follows the first occurrence of `pattern` in `text`.
pub open spec fn tail_after(text: Seq<u8>, pattern: Seq<u8>) -> Option<Seq<u8>> {
    match first_occurrence(text, pattern) {
        Some(at) => Some(text.subrange(at + pattern.len(), text.len() as int)),
        None => None,
    }
}

/// Whether `pattern` stands in `text` at the place `at`.
fn matches_at(text: &[u8], pattern: &[u8], at: usize) -> (found: bool)
    requires
        at + pattern@.len() <= text@.len(),
    ensures
        found == occurs_at(text@, pattern@, at as int),
{
    let size = text.len();
    let mut k: usize = 0;
    while k < pattern.len()
        invariant
            k <= pattern.len(),
            size == text@.len(),
            at + pattern@.len() <= size,
            forall|j: int| 0 <= j < k ==> text@[at + j] == pattern@[j],
        decreases pattern.len() - k,
    {
        if text[at + k] != pattern[k] {
            proof {
                assert(text@.subrange(at as int, at + pattern@.len())[k as int] == text@[at + k]);
            }
            return false;
        }
        k = k + 1;
    }
    assert(text@.subrange(at as int, at + pattern@.len()) == pattern@);
    true
}

/// Finds the first place at which `pattern` stands in `text`.
pub fn find(text: &[u8], pattern: &[u8]) -> (at: Option<usize>)
    ensures
        at is Some <==> first_occurrence(text@, pattern@) is Some,
        at matches Some(place) ==> first_occurrence(text@, pattern@) == Some(place as int)
            && occurs_at(text@, pattern@, place as int),
{
    if pattern.len() > text.len() {
        return None;
    }
    if pattern.len() == 0 {
        assert(text@.subrange(0, 0) == pattern@);
        return Some(0);
    }
    let size = text.len();
    let last = size - pattern.len();
    let mut i: usize = 0;
    while i <= last
        invariant
            i <= last + 1,
            size == text@.len(),
            pattern@.len() > 0,
            last + pattern@.len() == size,
            find_from(text@, pattern@, 0) == find_from(text@, pattern@, i as int),
        decreases last + 1 - i,
    {
        if matches_at(text, pattern, i) {
            return Some(i);
        }
        i = i + 1;
    }
    None
}

/// In well-formed text the place after an ASCII character is the start of
/// a character or the end of the text.
pub proof fn lemma_boundary_after_ascii(bytes: Seq<u8>, at: int)
    requires
        valid_utf8(bytes),
        0 < at <= bytes.len(),
        bytes[at - 1] < 0x80,
    ensures
        is_char_boundary(bytes, at),
{
    utf8_byte_ranges_bitwise(bytes[at - 1]);
    is_char_boundary_iff_not_is_continuation_byte(bytes, at - 1);
    if at == bytes.len() {
        is_char_boundary_start_end_of_seq(bytes);
    } else {
        let tail = bytes.subrange(at - 1, bytes.len() as int);
        valid_utf8_split(bytes, at - 1);
        assert(tail[0] == bytes[at - 1]);
        assert(length_of_first_scalar(tail) == 1);
        let rest = pop_first_scalar(tail);
        assert(rest == bytes.subrange(at, bytes.len() as int));
        assert(valid_utf8(rest)) by {
            reveal_with_fuel(valid_utf8, 2);
        }
        assert(valid_first_scalar(rest)) by {
            reveal_with_fuel(valid_utf8, 2);
        }
        assert(rest[0] == bytes[at]);
        utf8_byte_ranges_bitwise(bytes[at]);
        assert(!is_continuation_byte(bytes[at]));
        is_char_boundary_iff_not_is_continuation_byte(bytes, at);
    }
}

/// What follows the first occurrence of `pattern` in `text`. The pattern
/// ends in an ASCII character.
pub fn str_tail_after<'a>(text: &'a str, pattern: &str) -> (tail: Option<&'a str>)
    requires
        pattern.spec_bytes().len() > 0,
        pattern.spec_bytes().last() < 0x80,
    ensures
        tail is Some <==> tail_after(text.spec_bytes(), pattern.spec_bytes()) is Some,
        tail matches Some(rest) ==> Some(rest.spec_bytes()) == tail_after(
            text.spec_bytes(),
            pattern.spec_bytes(),
        ),
{
    let bytes = text.as_bytes();
    let needle = pattern.as_bytes();
    match find(bytes, needle) {
        Some(at) => {
            let size = bytes.len();
            let cut = at + needle.len();
            proof {
                encode_utf8_valid_utf8(text@);
                assert(bytes@.subrange(at as int, at + needle@.len())[needle@.len() - 1]
                    == bytes@[cut - 1]);
                lemma_boundary_after_ascii(bytes@, cut as int);
            }
            let (_, rest) = text.split_at(cut);
            Some(rest)
        },
        None => None,
    }
}

} // verus!
