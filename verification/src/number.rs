//! Unsigned decimal numbers written as text.

use vstd::prelude::*;

verus! {

/// Why a text is not a number that fits in 32 bits.
#[derive(Debug, Clone, Copy, PartialEq, Eq, Structural)]
pub enum ParseFailure {
    /// The text is empty.
    Empty,
    /// The text holds something other than decimal digits after an optional
    /// leading plus sign, or holds the sign alone.
    InvalidDigit,
    /// The digits stand for a number above `u32::MAX`.
    PosOverflow,
}

/// Whether `byte` is one of the ASCII digits `0` to `9`.
pub open spec fn is_digit(byte: u8) -> bool {
    48 <= byte <= 57
}

/// Whether every byte of `bytes` is an ASCII digit.
pub open spec fn all_digits(bytes: Seq<u8>) -> bool {
    forall|i: int| 0 <= i < bytes.len() ==> is_digit(#[trigger] bytes[i])
}

/// The number that a string of ASCII digits stands for in base ten.
pub open spec fn decimal_value(digits: Seq<u8>) -> nat
    decreases digits.len(),
{
    if digits.len() == 0 {
        0
    } else {
        decimal_value(digits.drop_last()) * 10 + (digits.last() - 48) as nat
    }
}

/// The text without one leading plus sign.
pub open spec fn unsigned_part(text: Seq<u8>) -> Seq<u8> {
    if text.len() > 0 && text[0] == 43 {
        text.skip(1)
    } else {
        text
    }
}

/// Whether some run of digits at the start of `digits` already stands for a
/// number above `u32::MAX`.
pub open spec fn overflows(digits: Seq<u8>) -> bool {
    exists|k: int|
        0 <= k <= digits.len() && all_digits(#[trigger] digits.take(k)) && decimal_value(
            digits.take(k),
        ) > u32::MAX
}

/// What a text means as an unsigned 32-bit decimal number: digits only, after
/// an optional plus sign. Reading from the left, whichever comes first decides
/// the failure: a byte that is no digit, or a digit that takes the number past
/// `u32::MAX`.
pub open spec fn parse_decimal_spec(text: Seq<u8>) -> Result<u32, ParseFailure> {
    let digits = unsigned_part(text);
    if text.len() == 0 {
        Err(ParseFailure::Empty)
    } else if digits.len() == 0 {
        Err(ParseFailure::InvalidDigit)
    } else if overflows(digits) {
        Err(ParseFailure::PosOverflow)
    } else if !all_digits(digits) {
        Err(ParseFailure::InvalidDigit)
    } else {
        Ok(decimal_value(digits) as u32)
    }
}

/// A prefix that is one byte longer stands for ten times the number, plus the
/// new digit.
proof fn lemma_value_step(digits: Seq<u8>, k: int)
    requires
        0 <= k < digits.len(),
    ensures
        decimal_value(digits.take(k + 1)) == decimal_value(digits.take(k)) * 10 + (digits[k]
            - 48) as nat,
{
    assert(digits.take(k + 1).drop_last() =~= digits.take(k));
}

/// Reads `text` as an unsigned 32-bit decimal number.
pub fn parse_decimal(text: &[u8]) -> (parsed: Result<u32, ParseFailure>)
    ensures
        parsed == parse_decimal_spec(text@),
{
    if text.len() == 0 {
        return Err(ParseFailure::Empty);
    }
    let start: usize = if text[0] == 43 { 1 } else { 0 };
    if start == text.len() {
        return Err(ParseFailure::InvalidDigit);
    }
    let ghost digits = unsigned_part(text@);
    proof {
        assert(digits.take(0) =~= Seq::<u8>::empty());
    }
    let mut value: u32 = 0;
    let mut i: usize = start;
    while i < text.len()
        invariant
            start <= i <= text@.len(),
            digits == unsigned_part(text@),
            digits.len() == text@.len() - start,
            digits.len() > 0,
            forall|j: int| 0 <= j < digits.len() ==> digits[j] == text@[j + start],
            all_digits(digits.take(i - start)),
            value == decimal_value(digits.take(i - start)),
            forall|k: int| 0 <= k <= i - start ==> decimal_value(#[trigger] digits.take(k)) <= u32::MAX,
        decreases text@.len() - i,
    {
        let byte = text[i];
        let ghost at = i - start;
        proof {
            lemma_value_step(digits, at);
            assert(digits[at] == byte);
        }
        if byte < 48 || byte > 57 {
            proof {
                assert forall|k: int| 0 <= k <= digits.len() && all_digits(
                    #[trigger] digits.take(k),
                ) implies decimal_value(digits.take(k)) <= u32::MAX by {
                    if k > at {
                        assert(digits.take(k)[at] == byte);
                    }
                }
                assert(!overflows(digits));
                assert(!is_digit(digits[at]));
            }
            return Err(ParseFailure::InvalidDigit);
        }
        let digit: u32 = (byte - 48) as u32;
        if value > (u32::MAX - digit) / 10 {
            proof {
                assert(all_digits(digits.take(at + 1))) by {
                    assert forall|j: int| 0 <= j < at + 1 implies is_digit(
                        #[trigger] digits.take(at + 1)[j],
                    ) by {
                        if j < at {
                            assert(digits.take(at)[j] == digits[j]);
                        }
                    }
                }
                assert(decimal_value(digits.take(at + 1)) > u32::MAX);
                assert(overflows(digits));
            }
            return Err(ParseFailure::PosOverflow);
        }
        value = value * 10 + digit;
        proof {
            assert forall|j: int| 0 <= j < at + 1 implies is_digit(
                #[trigger] digits.take(at + 1)[j],
            ) by {
                if j < at {
                    assert(digits.take(at)[j] == digits[j]);
                }
            }
        }
        i += 1;
    }
    proof {
        assert(digits.take(i - start) =~= digits);
        assert forall|k: int| 0 <= k <= digits.len() && all_digits(
            #[trigger] digits.take(k),
        ) implies decimal_value(digits.take(k)) <= u32::MAX by {}
    }
    Ok(value)
}

} // verus!
