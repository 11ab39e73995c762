//! Whole numbers written in decimal.

use vstd::prelude::*;
use vstd::string::*;
use vstd::utf8::*;

verus! {

/// The byte is one of the ten ASCII digits.
pub open spec fn is_digit(byte: u8) -> bool {
    48 <= byte <= 57
}

pub open spec fn all_digits(digits: Seq<u8>) -> bool {
    forall|at: int| 0 <= at < digits.len() ==> is_digit(#[trigger] digits[at])
}

/// The number that a row of digits writes, the last digit counting least.
pub open spec fn digits_value(digits: Seq<u8>) -> int
    decreases digits.len(),
{
    if digits.len() == 0 {
        0
    } else {
        digits_value(digits.drop_last()) * 10 + (digits.last() - 48)
    }
}

/// The digits of a written number: what follows the sign, if there is one.
pub open spec fn digits_of(bytes: Seq<u8>) -> Seq<u8> {
    if bytes.len() > 0 && (bytes[0] == 43 || bytes[0] == 45) {
        bytes.skip(1)
    } else {
        bytes
    }
}

/// The 32-bit integer that the bytes write: a plus or minus sign or none,
/// then one digit or more, and nothing else. `None` where the bytes are not
/// of that form or the number does not fit.
pub open spec fn decimal_i32(bytes: Seq<u8>) -> Option<i32> {
    let digits = digits_of(bytes);
    let value = if bytes.len() > 0 && bytes[0] == 45 {
        -digits_value(digits)
    } else {
        digits_value(digits)
    };
    if digits.len() == 0 || !all_digits(digits) || value < -0x8000_0000 || value > 0x7fff_ffff {
        None
    } else {
        Some(value as i32)
    }
}

/// The 32-bit integer that a text writes.
pub open spec fn written_i32(text: Seq<char>) -> Option<i32> {
    decimal_i32(encode_utf8(text))
}

/// With every further digit the number written grows or stays.
pub proof fn lemma_value_grows(digits: Seq<u8>, upto: int)
    requires
        all_digits(digits),
        0 <= upto <= digits.len(),
    ensures
        0 <= digits_value(digits.take(upto)) <= digits_value(digits),
    decreases digits.len() - upto,
{
    lemma_value_is_natural(digits.take(upto));
    if upto == digits.len() {
        assert(digits.take(upto) =~= digits);
    } else {
        assert(digits.take(upto + 1).drop_last() =~= digits.take(upto));
        assert(is_digit(digits[upto]));
        lemma_value_grows(digits, upto + 1);
    }
}

/// Digits write no negative number.
pub proof fn lemma_value_is_natural(digits: Seq<u8>)
    requires
        all_digits(digits),
    ensures
        0 <= digits_value(digits),
    decreases digits.len(),
{
    if digits.len() > 0 {
        assert(is_digit(digits[digits.len() - 1]));
        lemma_value_is_natural(digits.drop_last());
    }
}

/// Reads a 32-bit integer written in decimal.
pub fn read_decimal_i32(bytes: &[u8]) -> (number: Option<i32>)
    ensures
        number == decimal_i32(bytes@),
{
    let size: usize = bytes.len();
    if size == 0 {
        return None;
    }
    let negative = bytes[0] == 45;
    let start: usize = if bytes[0] == 43 || bytes[0] == 45 {
        1
    } else {
        0
    };
    let ghost digits = digits_of(bytes@);
    let mut value: i64 = 0;
    let mut at: usize = start;
    proof {
        assert(digits =~= bytes@.skip(start as int));
    }
    while at < size
        invariant
            start <= at <= size,
            size == bytes@.len(),
            size > 0,
            negative == (bytes@[0] == 45),
            digits == digits_of(bytes@),
            digits == bytes@.skip(start as int),
            all_digits(digits.take(at - start)),
            value == digits_value(digits.take(at - start)),
            0 <= value <= 0x8000_0000,
        decreases size - at,
    {
        let byte: u8 = bytes[at];
        if byte < 48 || byte > 57 {
            assert(digits[at - start] == byte);
            return None;
        }
        let next: i64 = value * 10 + (byte - 48) as i64;
        proof {
            assert(digits.take(at + 1 - start).drop_last() =~= digits.take(at - start));
            assert(digits.take(at + 1 - start).last() == byte);
            assert forall|k: int| 0 <= k < at + 1 - start implies is_digit(
                #[trigger] digits.take(at + 1 - start)[k],
            ) by {
                if k < at - start {
                    assert(digits.take(at - start)[k] == digits[k]);
                }
            }
        }
        if next > 0x8000_0000 {
            proof {
                if all_digits(digits) {
                    lemma_value_grows(digits, at + 1 - start);
                }
            }
            return None;
        }
        value = next;
        at += 1;
    }
    proof {
        assert(digits.take(at - start) =~= digits);
    }
    if at == start {
        None
    } else if negative {
        Some((-value) as i32)
    } else if value > 0x7fff_ffff {
        None
    } else {
        Some(value as i32)
    }
}

/// Reads a 32-bit integer from a text, as `str::parse` does: an optional
/// sign, then decimal digits, no white space and no other character.
pub fn read_i32(text: &str) -> (number: Option<i32>)
    ensures
        number == written_i32(text@),
{
    read_decimal_i32(text.as_bytes())
}

} // verus!
