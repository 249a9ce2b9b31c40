//! Hex text and big-endian byte helpers.
//!
//! Hex text is held as ASCII bytes: two upper-case digits per byte, the most
//! significant nibble first. Lower-case digits are not hex digits here.

use vstd::prelude::*;

use crate::ascii::{DIGIT_0, DIGIT_9, UPPER_A, UPPER_F};
use crate::error::SlcanError;

verus! {

/// The ASCII digit that stands for the nibble `n`, for `0 <= n < 16`.
pub open spec fn hex_digit(n: int) -> u8 {
    if n < 10 {
        (DIGIT_0 + n) as u8
    } else {
        (UPPER_A + (n - 10)) as u8
    }
}

/// Whether `c` is one of `0`..`9`, `A`..`F`.
pub open spec fn is_hex_digit(c: u8) -> bool {
    (DIGIT_0 <= c <= DIGIT_9) || (UPPER_A <= c <= UPPER_F)
}

/// The nibble that the hex digit `c` stands for.
pub open spec fn hex_value(c: u8) -> int {
    if c <= DIGIT_9 {
        c - DIGIT_0
    } else {
        c - UPPER_A + 10
    }
}

/// Whether every character of `text` is a hex digit.
pub open spec fn all_hex_digits(text: Seq<u8>) -> bool {
    forall|i: int| 0 <= i < text.len() ==> is_hex_digit(#[trigger] text[i])
}

/// The hex text of `bytes`: digit `2 * k` is the high nibble of byte `k`,
/// digit `2 * k + 1` its low nibble.
pub open spec fn hex_text(bytes: Seq<u8>) -> Seq<u8> {
    Seq::new(
        2 * bytes.len(),
        |i: int|
            if i % 2 == 0 {
                hex_digit(bytes[i / 2] as int / 16)
            } else {
                hex_digit(bytes[i / 2] as int % 16)
            },
    )
}

/// Whether `text` is well-formed hex text: an even number of hex digits.
pub open spec fn is_hex_text(text: Seq<u8>) -> bool {
    text.len() % 2 == 0 && all_hex_digits(text)
}

/// The bytes that the hex text `text` stands for.
pub open spec fn hex_bytes(text: Seq<u8>) -> Seq<u8> {
    Seq::new(
        text.len() / 2,
        |k: int| (hex_value(text[2 * k]) * 16 + hex_value(text[2 * k + 1])) as u8,
    )
}

/// The number that the hex digits `digits` write, most significant digit
/// first.
pub open spec fn hex_number(digits: Seq<u8>) -> int
    decreases digits.len(),
{
    if digits.len() == 0 {
        0
    } else {
        hex_number(digits.drop_last()) * 16 + hex_value(digits.last())
    }
}

/// The four bytes of `n`, most significant first.
pub open spec fn be_bytes(n: u32) -> Seq<u8> {
    seq![
        (n / 0x100_0000) as u8,
        (n / 0x1_0000 % 0x100) as u8,
        (n / 0x100 % 0x100) as u8,
        (n % 0x100) as u8,
    ]
}

/// The number whose big-endian bytes are the first four of `bytes`.
pub open spec fn be_value(bytes: Seq<u8>) -> int {
    bytes[0] * 0x100_0000 + bytes[1] * 0x1_0000 + bytes[2] * 0x100 + bytes[3]
}

/// Encodes one nibble as its upper-case hex digit.
fn nibble_to_digit(n: u8) -> (c: u8)
    requires
        n < 16,
    ensures
        c == hex_digit(n as int),
{
    if n < 10 {
        DIGIT_0 + n
    } else {
        UPPER_A + (n - 10)
    }
}

/// Decodes one hex digit, or reports that `c` is none.
fn digit_to_nibble(c: u8) -> (n: Option<u8>)
    ensures
        match n {
            Some(v) => is_hex_digit(c) && v == hex_value(c) && v < 16,
            None => !is_hex_digit(c),
        },
{
    if DIGIT_0 <= c && c <= DIGIT_9 {
        Some(c - DIGIT_0)
    } else if UPPER_A <= c && c <= UPPER_F {
        Some(c - UPPER_A + 10)
    } else {
        None
    }
}

/// Encodes `bytes` as hex text: two upper-case digits per byte, the high
/// nibble first. Decoding the text gives `bytes` back.
pub fn num_to_string(bytes: &[u8]) -> (text: Vec<u8>)
    ensures
        text@ == hex_text(bytes@),
        text@.len() == 2 * bytes@.len(),
        is_hex_text(text@),
        hex_bytes(text@) == bytes@,
{
    let mut text: Vec<u8> = Vec::new();
    let mut k: usize = 0;
    while k < bytes.len()
        invariant
            k <= bytes.len(),
            text@ == hex_text(bytes@.take(k as int)),
        decreases bytes.len() - k,
    {
        let byte = bytes[k];
        text.push(nibble_to_digit(byte / 16));
        text.push(nibble_to_digit(byte % 16));
        k += 1;
    }
    proof {
        lemma_hex_round_trip(bytes@);
    }
    text
}

/// Decodes hex text into the bytes it stands for.
///
/// Fails with `InvalidInput` exactly when `text` has odd length or holds a
/// character that is no upper-case hex digit.
pub fn string_to_num(text: &[u8]) -> (result: Result<Vec<u8>, SlcanError>)
    ensures
        match result {
            Ok(bytes) => is_hex_text(text@) && bytes@ == hex_bytes(text@),
            Err(e) => !is_hex_text(text@) && e == SlcanError::InvalidInput,
        },
{
    if text.len() % 2 != 0 {
        return Err(SlcanError::InvalidInput);
    }
    let mut bytes: Vec<u8> = Vec::new();
    let mut k: usize = 0;
    while k < text.len() / 2
        invariant
            text.len() % 2 == 0,
            k <= text.len() / 2,
            bytes@.len() == k,
            forall|i: int| 0 <= i < 2 * k ==> is_hex_digit(#[trigger] text@[i]),
            forall|j: int|
                0 <= j < k ==> #[trigger] bytes@[j] == (hex_value(text@[2 * j]) * 16 + hex_value(
                    text@[2 * j + 1],
                )) as u8,
        decreases text.len() / 2 - k,
    {
        let high = match digit_to_nibble(text[2 * k]) {
            Some(v) => v,
            None => {
                return Err(SlcanError::InvalidInput);
            },
        };
        let low = match digit_to_nibble(text[2 * k + 1]) {
            Some(v) => v,
            None => {
                return Err(SlcanError::InvalidInput);
            },
        };
        bytes.push(high * 16 + low);
        k += 1;
    }
    Ok(bytes)
}

/// Splits `num` into its four bytes, most significant first. Reading the
/// bytes back gives `num`.
pub fn u32_to_bytes(num: u32) -> (bytes: Vec<u8>)
    ensures
        bytes@ == be_bytes(num),
        bytes@.len() == 4,
        be_value(bytes@) == num,
{
    let b0: u32 = num >> 24;
    let b1: u32 = (num >> 16) & 0xff;
    let b2: u32 = (num >> 8) & 0xff;
    let b3: u32 = num & 0xff;
    assert(b0 == num / 0x100_0000 && b0 < 0x100) by (bit_vector)
        requires
            b0 == num >> 24,
    ;
    assert(b1 == num / 0x1_0000 % 0x100 && b1 < 0x100) by (bit_vector)
        requires
            b1 == (num >> 16) & 0xff,
    ;
    assert(b2 == num / 0x100 % 0x100 && b2 < 0x100) by (bit_vector)
        requires
            b2 == (num >> 8) & 0xff,
    ;
    assert(b3 == num % 0x100 && b3 < 0x100) by (bit_vector)
        requires
            b3 == num & 0xff,
    ;
    let mut bytes: Vec<u8> = Vec::new();
    bytes.push(b0 as u8);
    bytes.push(b1 as u8);
    bytes.push(b2 as u8);
    bytes.push(b3 as u8);
    proof {
        lemma_u32_round_trip(num);
    }
    bytes
}

/// Reads a big-endian number from the first four bytes of `bytes`.
///
/// Fails with `InvalidInput` exactly when fewer than four bytes are given.
pub fn bytes_to_u32(bytes: &[u8]) -> (result: Result<u32, SlcanError>)
    ensures
        match result {
            Ok(n) => bytes@.len() >= 4 && n == be_value(bytes@),
            Err(e) => bytes@.len() < 4 && e == SlcanError::InvalidInput,
        },
{
    if bytes.len() < 4 {
        return Err(SlcanError::InvalidInput);
    }
    let b0: u32 = bytes[0] as u32;
    let b1: u32 = bytes[1] as u32;
    let b2: u32 = bytes[2] as u32;
    let b3: u32 = bytes[3] as u32;
    let n: u32 = (b0 << 24) | (b1 << 16) | (b2 << 8) | b3;
    assert(n == b0 * 0x100_0000 + b1 * 0x1_0000 + b2 * 0x100 + b3) by (bit_vector)
        requires
            n == (b0 << 24) | (b1 << 16) | (b2 << 8) | b3,
            b0 < 0x100,
            b1 < 0x100,
            b2 < 0x100,
            b3 < 0x100,
    ;
    Ok(n)
}

/// Reads the number that one to eight hex digits write, most significant
/// digit first.
///
/// Fails with `InvalidInput` exactly when there is no digit, when there are
/// more than eight, or when a character is no upper-case hex digit.
pub fn hex_to_u32(digits: &[u8]) -> (result: Result<u32, SlcanError>)
    ensures
        match result {
            Ok(n) => 1 <= digits@.len() <= 8 && all_hex_digits(digits@) && n == hex_number(
                digits@,
            ),
            Err(e) => !(1 <= digits@.len() <= 8 && all_hex_digits(digits@)) && e
                == SlcanError::InvalidInput,
        },
{
    let len = digits.len();
    if len == 0 || len > 8 {
        return Err(SlcanError::InvalidInput);
    }
    // Eight digits make four bytes: fill up with zeros in front.
    let mut text: Vec<u8> = Vec::new();
    let mut i: usize = len;
    while i < 8
        invariant
            len <= i <= 8,
            text@ == zero_digits((i - len) as nat),
        decreases 8 - i,
    {
        text.push(DIGIT_0);
        i += 1;
    }
    let mut j: usize = 0;
    while j < len
        invariant
            j <= len == digits@.len(),
            text@ == zero_digits((8 - len) as nat) + digits@.take(j as int),
        decreases len - j,
    {
        text.push(digits[j]);
        j += 1;
    }
    assert(digits@.take(len as int) =~= digits@);
    proof {
        lemma_leading_zeros((8 - len) as nat, digits@);
        if all_hex_digits(digits@) {
            lemma_hex_number_of_eight(text@);
        }
    }
    match string_to_num(text.as_slice()) {
        Ok(bytes) => bytes_to_u32(bytes.as_slice()),
        Err(e) => Err(e),
    }
}

/// The digit of a nibble is a hex digit and stands for that nibble.
pub proof fn lemma_hex_digit_value(n: int)
    requires
        0 <= n < 16,
    ensures
        is_hex_digit(hex_digit(n)),
        hex_value(hex_digit(n)) == n,
{
}

/// Decoding the hex text of any byte sequence succeeds and gives the
/// sequence back.
pub proof fn lemma_hex_round_trip(bytes: Seq<u8>)
    ensures
        is_hex_text(hex_text(bytes)),
        hex_bytes(hex_text(bytes)) == bytes,
{
    let text = hex_text(bytes);
    assert forall|i: int| 0 <= i < text.len() implies is_hex_digit(#[trigger] text[i]) by {
        lemma_hex_digit_value(bytes[i / 2] as int / 16);
        lemma_hex_digit_value(bytes[i / 2] as int % 16);
    }
    assert forall|k: int| 0 <= k < bytes.len() implies #[trigger] hex_bytes(text)[k] == bytes[k] by {
        lemma_hex_digit_value(bytes[k] as int / 16);
        lemma_hex_digit_value(bytes[k] as int % 16);
    }
}

/// Reading back the four bytes of any number gives the number.
pub proof fn lemma_u32_round_trip(n: u32)
    ensures
        be_bytes(n).len() == 4,
        be_value(be_bytes(n)) == n,
{
    let b0: u32 = n / 0x100_0000;
    let b1: u32 = n / 0x1_0000 % 0x100;
    let b2: u32 = n / 0x100 % 0x100;
    let b3: u32 = n % 0x100;
    assert(b0 < 0x100 && b1 < 0x100 && b2 < 0x100 && b3 < 0x100 && b0 * 0x100_0000 + b1 * 0x1_0000
        + b2 * 0x100 + b3 == n) by (bit_vector)
        requires
            b0 == n / 0x100_0000,
            b1 == n / 0x1_0000 % 0x100,
            b2 == n / 0x100 % 0x100,
            b3 == n % 0x100,
    ;
}

/// The eight hex digits of a number write that number.
pub proof fn lemma_hex_digits_number(n: u32)
    ensures
        hex_text(be_bytes(n)).len() == 8,
        all_hex_digits(hex_text(be_bytes(n))),
        hex_number(hex_text(be_bytes(n))) == n,
{
    let bytes = be_bytes(n);
    let digits = hex_text(bytes);
    assert(is_hex_text(digits) && hex_bytes(digits) == bytes) by {
        lemma_hex_round_trip(bytes);
    }
    assert(hex_number(digits) == be_value(hex_bytes(digits))) by {
        lemma_hex_number_of_eight(digits);
    }
    assert(be_value(bytes) == n) by {
        lemma_u32_round_trip(n);
    }
}

/// The last three of the eight hex digits of a number below `0x1000` write
/// that number.
pub proof fn lemma_last_three_digits_number(n: u32)
    requires
        n < 0x1000,
    ensures
        hex_number(hex_text(be_bytes(n)).subrange(5, 8)) == n,
{
    let bytes = be_bytes(n);
    let digits = hex_text(bytes);
    let field = digits.subrange(5, 8);
    lemma_hex_number_of_three(field);
    let high = bytes[2] as int;
    let low = bytes[3] as int;
    lemma_hex_digit_value(high % 16);
    lemma_hex_digit_value(low / 16);
    lemma_hex_digit_value(low % 16);
}

/// `count` zero digits.
spec fn zero_digits(count: nat) -> Seq<u8> {
    Seq::new(count, |i: int| DIGIT_0)
}

/// Zero digits in front of a numeral do not change the number it writes.
proof fn lemma_leading_zeros(count: nat, digits: Seq<u8>)
    ensures
        hex_number(zero_digits(count) + digits) == hex_number(digits),
    decreases digits.len(), count,
{
    let padded = zero_digits(count) + digits;
    if digits.len() > 0 {
        assert(padded.drop_last() =~= zero_digits(count) + digits.drop_last());
        lemma_leading_zeros(count, digits.drop_last());
    } else if count > 0 {
        assert(padded.drop_last() =~= zero_digits((count - 1) as nat) + digits);
        lemma_leading_zeros((count - 1) as nat, digits);
    }
}

/// Three hex digits write `256 * d0 + 16 * d1 + d2`.
proof fn lemma_hex_number_of_three(digits: Seq<u8>)
    requires
        digits.len() == 3,
    ensures
        hex_number(digits) == hex_value(digits[0]) * 0x100 + hex_value(digits[1]) * 0x10
            + hex_value(digits[2]),
{
    reveal_with_fuel(hex_number, 4);
}

/// Eight hex digits write the number whose big-endian bytes they encode.
proof fn lemma_hex_number_of_eight(digits: Seq<u8>)
    requires
        digits.len() == 8,
        all_hex_digits(digits),
    ensures
        0 <= hex_number(digits) <= u32::MAX,
        hex_number(digits) == be_value(hex_bytes(digits)),
{
    reveal_with_fuel(hex_number, 9);
    assert forall|i: int| 0 <= i < 8 implies 0 <= hex_value(#[trigger] digits[i]) < 16 by {
        assert(is_hex_digit(digits[i]));
    }
}

} // verus!
