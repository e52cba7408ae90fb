//! The checkpoint: the highest height that has been read, as it is stored.
//!
//! It is stored under one fixed key, as the height in decimal. Reading it
//! back accepts what `u64` parsing accepts: an optional plus sign, then one
//! or more digits that make a number a `u64` can hold.

use crate::key::{append_decimal, decimal, digit_char};
use vstd::prelude::*;
use vstd::utf8::{encode_utf8, is_ascii_chars, is_ascii_chars_encode_utf8};

verus! {

/// The key under which the checkpoint is stored.
pub const CHECKPOINT_KEY: &'static str = "last_download_block";

/// The value stored for the checkpoint `height`: the height in decimal.
pub fn checkpoint_value(height: u64) -> (text: String)
    ensures
        text@ == decimal(height as nat),
{
    let mut text = String::new();
    append_decimal(&mut text, height);
    assert(text@ =~= decimal(height as nat));
    text
}

/// Whether `b` is the byte of a decimal digit.
pub open spec fn is_digit(b: u8) -> bool {
    48 <= b <= 57
}

/// Whether `digits` is one or more decimal digits.
pub open spec fn all_digits(digits: Seq<u8>) -> bool {
    digits.len() > 0 && forall|i: int| 0 <= i < digits.len() ==> is_digit(#[trigger] digits[i])
}

/// The number that the decimal digits `digits` write.
pub open spec fn digits_value(digits: Seq<u8>) -> nat
    decreases digits.len(),
{
    if digits.len() == 0 {
        0
    } else {
        digits_value(digits.drop_last()) * 10 + (digits.last() - 48) as nat
    }
}

/// `bytes` without the plus sign in front, where there is one.
pub open spec fn unsigned_part(bytes: Seq<u8>) -> Seq<u8> {
    if bytes.len() > 0 && bytes[0] == 43 {
        bytes.skip(1)
    } else {
        bytes
    }
}

/// The checkpoint that the stored value `bytes` holds, or `None` where it is
/// no height.
pub open spec fn parsed_height(bytes: Seq<u8>) -> Option<u64> {
    let digits = unsigned_part(bytes);
    if all_digits(digits) && digits_value(digits) <= u64::MAX {
        Some(digits_value(digits) as u64)
    } else {
        None
    }
}

proof fn lemma_value_grows(digits: Seq<u8>, k: int)
    requires
        0 <= k <= digits.len(),
        forall|i: int| 0 <= i < digits.len() ==> is_digit(#[trigger] digits[i]),
    ensures
        digits_value(digits.take(k)) <= digits_value(digits),
    decreases digits.len() - k,
{
    if k < digits.len() {
        lemma_value_grows(digits, k + 1);
        assert(digits.take(k + 1).drop_last() =~= digits.take(k));
        assert(is_digit(digits[k]));
    } else {
        assert(digits.take(k) =~= digits);
    }
}

/// Reads a stored checkpoint.
pub fn parse_checkpoint(bytes: &[u8]) -> (r: Option<u64>)
    ensures
        r == parsed_height(bytes@),
{
    let start: usize = if bytes.len() > 0 && bytes[0] == 43 {
        1
    } else {
        0
    };
    let ghost digits = unsigned_part(bytes@);
    assert(digits == bytes@.skip(start as int));
    if start == bytes.len() {
        return None;
    }
    let mut value: u64 = 0;
    let mut i: usize = start;
    assert(digits.take(0) =~= Seq::empty());
    while i < bytes.len()
        invariant
            start <= i <= bytes.len(),
            start <= 1,
            digits == bytes@.skip(start as int),
            digits == unsigned_part(bytes@),
            forall|j: int| 0 <= j < i - start ==> is_digit(#[trigger] digits[j]),
            value == digits_value(digits.take(i - start)),
        decreases bytes.len() - i,
    {
        let b: u8 = bytes[i];
        assert(digits[i - start] == b);
        if b < 48 || b > 57 {
            assert(!is_digit(digits[i - start]));
            return None;
        }
        proof {
            assert(digits.take(i - start + 1).drop_last() =~= digits.take(i - start));
            if all_digits(digits) {
                lemma_value_grows(digits, i - start + 1);
            }
        }
        let shifted: u64 = match value.checked_mul(10) {
            Some(v) => v,
            None => {
                return None;
            },
        };
        value = match shifted.checked_add((b - 48) as u64) {
            Some(v) => v,
            None => {
                return None;
            },
        };
        i = i + 1;
    }
    assert(digits.take(i - start) =~= digits);
    Some(value)
}

/// The bytes of a number written in decimal are digits, and they write that
/// number.
pub proof fn lemma_decimal_bytes(n: nat)
    ensures
        is_ascii_chars(decimal(n)),
        all_digits(encode_utf8(decimal(n))),
        digits_value(encode_utf8(decimal(n))) == n,
        encode_utf8(decimal(n))[0] != 43,
    decreases n,
{
    let text = decimal(n);
    if n >= 10 {
        lemma_decimal_bytes(n / 10);
        let front = decimal(n / 10);
        assert(text == front.push(digit_char(n % 10)));
        assert forall|i: int| 0 <= i < text.len() implies '\0' <= #[trigger] text[i]
            <= '\u{7f}' by {
            if i < front.len() {
                assert(text[i] == front[i]);
            }
        }
        is_ascii_chars_encode_utf8(text);
        is_ascii_chars_encode_utf8(front);
        let bytes = encode_utf8(text);
        let front_bytes = encode_utf8(front);
        assert(bytes.drop_last() =~= front_bytes) by {
            assert forall|i: int| 0 <= i < front_bytes.len() implies bytes.drop_last()[i]
                == front_bytes[i] by {
                assert(text[i] == front[i]);
            }
        }
        assert(bytes.last() == text[text.len() - 1] as u8);
        assert forall|i: int| 0 <= i < bytes.len() implies is_digit(#[trigger] bytes[i]) by {
            if i < front_bytes.len() {
                assert(bytes[i] == bytes.drop_last()[i]);
            }
        }
        assert(bytes[0] == front_bytes[0]);
    } else {
        is_ascii_chars_encode_utf8(text);
        let bytes = encode_utf8(text);
        assert(bytes[0] == text[0] as u8);
        assert(digits_value(bytes.drop_last()) == 0);
    }
}

/// What is stored for a height reads back as that height.
pub proof fn lemma_checkpoint_round_trip(height: u64)
    ensures
        parsed_height(encode_utf8(decimal(height as nat))) == Some(height),
{
    lemma_decimal_bytes(height as nat);
}

} // verus!
