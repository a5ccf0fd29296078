//! Whole numbers: identifiers, and lengths and elevations in feet.
//!
//! A cell that holds a whole number holds its digits and nothing else, but
//! for one sign before them. Digits are decimal, or hexadecimal after the
//! prefix `0x`. A number that does not fit its type is rejected, not
//! truncated.

use crate::error::{rejected, ErrorKind, FieldError};
use crate::text::chars_of;
use vstd::prelude::*;

verus! {

/// The value of a decimal digit, and of a hexadecimal one where `hex`.
pub open spec fn digit(c: char, hex: bool) -> Option<nat> {
    if '0' <= c && c <= '9' {
        Some((c as nat - '0' as nat) as nat)
    } else if hex && 'a' <= c && c <= 'f' {
        Some((c as nat - 'a' as nat + 10) as nat)
    } else if hex && 'A' <= c && c <= 'F' {
        Some((c as nat - 'A' as nat + 10) as nat)
    } else {
        None
    }
}

/// The base of the digits: sixteen where `hex`, else ten.
pub open spec fn radix(hex: bool) -> nat {
    if hex {
        16
    } else {
        10
    }
}

/// Whether every character of `digits` is a digit.
pub open spec fn all_digits(digits: Seq<char>, hex: bool) -> bool {
    forall|i: int| 0 <= i < digits.len() ==> (#[trigger] digit(digits[i], hex)) is Some
}

/// The number that a run of digits denotes, most significant digit first.
pub open spec fn number(digits: Seq<char>, hex: bool) -> nat
    decreases digits.len(),
{
    if digits.len() == 0 {
        0
    } else {
        number(digits.drop_last(), hex) * radix(hex) + match digit(digits.last(), hex) {
            Some(d) => d,
            None => 0,
        }
    }
}

/// The number that `digits` denote, where they are digits and at least one.
pub open spec fn magnitude(digits: Seq<char>, hex: bool) -> Option<nat> {
    if digits.len() > 0 && all_digits(digits, hex) {
        Some(number(digits, hex))
    } else {
        None
    }
}

/// Whether the cell begins with `0x`.
pub open spec fn has_hex_prefix(cell: Seq<char>) -> bool {
    cell.len() >= 2 && cell[0] == '0' && cell[1] == 'x'
}

/// The integer that a cell denotes: decimal digits, or hexadecimal digits
/// after `0x`; before the digits one sign may stand, `+` always and `-` where
/// `signed`. Nothing else may stand in the cell.
pub open spec fn integer(cell: Seq<char>, signed: bool) -> Option<int> {
    let hex = has_hex_prefix(cell);
    let body = if hex {
        cell.skip(2)
    } else {
        cell
    };
    let negative = signed && body.len() > 0 && body[0] == '-';
    let digits = if body.len() > 0 && (body[0] == '+' || negative) {
        body.skip(1)
    } else {
        body
    };
    match magnitude(digits, hex) {
        Some(m) => Some(
            if negative {
                -(m as int)
            } else {
                m as int
            },
        ),
        None => None,
    }
}

/// The identifier that a cell denotes: an unsigned integer of 64 bits.
pub open spec fn unsigned_64(cell: Seq<char>) -> Option<u64> {
    match integer(cell, false) {
        Some(v) => if v <= u64::MAX {
            Some(v as u64)
        } else {
            None
        },
        None => None,
    }
}

/// The signed integer of 32 bits that a cell denotes.
pub open spec fn signed_32(cell: Seq<char>) -> Option<i32> {
    match integer(cell, true) {
        Some(v) => if i32::MIN <= v && v <= i32::MAX {
            Some(v as i32)
        } else {
            None
        },
        None => None,
    }
}

/// A longer run of digits denotes no smaller number.
proof fn lemma_number_grows(digits: Seq<char>, k: int, hex: bool)
    requires
        0 <= k <= digits.len(),
    ensures
        number(digits.take(k), hex) <= number(digits, hex),
    decreases digits.len(),
{
    if k == digits.len() {
        assert(digits.take(k) =~= digits);
    } else {
        lemma_number_grows(digits.drop_last(), k, hex);
        assert(digits.drop_last().take(k) =~= digits.take(k));
        assert(number(digits.drop_last(), hex) <= number(digits.drop_last(), hex) * radix(hex))
            by (nonlinear_arith)
            requires
                radix(hex) >= 1,
        ;
    }
}

/// The value of one digit.
fn digit_value(c: char, hex: bool) -> (d: Option<u8>)
    ensures
        match d {
            Some(v) => digit(c, hex) == Some(v as nat),
            None => digit(c, hex) is None,
        },
{
    if '0' <= c && c <= '9' {
        Some((c as u8) - ('0' as u8))
    } else if hex && 'a' <= c && c <= 'f' {
        Some((c as u8) - ('a' as u8) + 10)
    } else if hex && 'A' <= c && c <= 'F' {
        Some((c as u8) - ('A' as u8) + 10)
    } else {
        None
    }
}

/// Reads the digits `chars[from..]`. `None` stands for a run that is no
/// number, or one beyond 64 bits.
fn read_magnitude(chars: &Vec<char>, from: usize, hex: bool) -> (m: Option<u64>)
    requires
        from <= chars.len(),
    ensures
        match m {
            Some(v) => magnitude(chars@.skip(from as int), hex) == Some(v as nat),
            None => match magnitude(chars@.skip(from as int), hex) {
                Some(n) => n > u64::MAX,
                None => true,
            },
        },
{
    let ghost digits = chars@.skip(from as int);
    if from == chars.len() {
        return None;
    }
    let mut acc: u64 = 0;
    let mut i: usize = from;
    assert(digits.take(0) =~= Seq::<char>::empty());
    while i < chars.len()
        invariant
            from <= i <= chars.len(),
            digits == chars@.skip(from as int),
            all_digits(digits.take(i - from), hex),
            acc == number(digits.take(i - from), hex),
        decreases chars.len() - i,
    {
        let ghost next = digits.take(i - from + 1);
        proof {
            assert(next.drop_last() =~= digits.take(i - from));
            assert(next.last() == chars@[i as int]);
        }
        match digit_value(chars[i], hex) {
            None => {
                assert(digit(digits[i - from], hex) is None);
                return None;
            },
            Some(d) => {
                let wide: u128 = if hex {
                    (acc as u128) * 16 + (d as u128)
                } else {
                    (acc as u128) * 10 + (d as u128)
                };
                assert(wide == number(next, hex));
                if wide > u64::MAX as u128 {
                    proof {
                        lemma_number_grows(digits, i - from + 1, hex);
                    }
                    return None;
                }
                acc = wide as u64;
            },
        }
        i = i + 1;
    }
    assert(digits.take(i - from) =~= digits);
    Some(acc)
}

/// Decodes an identifier or another unsigned integer of 64 bits.
pub fn u64_from_str(value: &str) -> (r: Result<u64, FieldError>)
    ensures
        match r {
            Ok(v) => unsigned_64(value@) == Some(v),
            Err(e) => unsigned_64(value@) is None && e@ == rejected(
                ErrorKind::InvalidInteger,
                value@,
            ),
        },
{
    let chars = chars_of(value);
    let hex = chars.len() >= 2 && chars[0] == '0' && chars[1] == 'x';
    let mut from: usize = if hex {
        2
    } else {
        0
    };
    if from < chars.len() && chars[from] == '+' {
        from = from + 1;
    }
    proof {
        if hex && from == 3 {
            assert(chars@.skip(2).skip(1) =~= chars@.skip(3));
        }
        assert(chars@.skip(0) =~= chars@);
    }
    match read_magnitude(&chars, from, hex) {
        Some(v) => Ok(v),
        None => Err(FieldError::new(ErrorKind::InvalidInteger, value)),
    }
}

/// Decodes a signed integer of 32 bits.
pub fn i32_from_str(value: &str) -> (r: Result<i32, FieldError>)
    ensures
        match r {
            Ok(v) => signed_32(value@) == Some(v),
            Err(e) => signed_32(value@) is None && e@ == rejected(
                ErrorKind::InvalidInteger,
                value@,
            ),
        },
{
    let chars = chars_of(value);
    let hex = chars.len() >= 2 && chars[0] == '0' && chars[1] == 'x';
    let mut from: usize = if hex {
        2
    } else {
        0
    };
    let negative = from < chars.len() && chars[from] == '-';
    if from < chars.len() && (chars[from] == '+' || negative) {
        from = from + 1;
    }
    proof {
        if hex && from == 3 {
            assert(chars@.skip(2).skip(1) =~= chars@.skip(3));
        }
        assert(chars@.skip(0) =~= chars@);
    }
    match read_magnitude(&chars, from, hex) {
        Some(v) => {
            if negative {
                if v <= 0x7fff_ffff {
                    Ok(-(v as i32))
                } else if v == 0x8000_0000 {
                    Ok(i32::MIN)
                } else {
                    Err(FieldError::new(ErrorKind::InvalidInteger, value))
                }
            } else if v <= 0x7fff_ffff {
                Ok(v as i32)
            } else {
                Err(FieldError::new(ErrorKind::InvalidInteger, value))
            }
        },
        None => Err(FieldError::new(ErrorKind::InvalidInteger, value)),
    }
}

} // verus!
