//! Decimal numbers kept as the text that was published.
//!
//! Coordinates, headings and magnetic variations are never computed with
//! here. A [`Decimal`] holds the digits as they stood in the source, so
//! nothing is lost to rounding, and guarantees that they spell a number.

use crate::error::{rejected, ErrorKind, FieldError};
use crate::integer::{all_digits, digit};
use crate::text::{chars_of, lower, lowered, to_lower};
use vstd::prelude::*;

verus! {

/// The index of the first `a` or `b` in `s`, and `s.len()` where there is none.
pub open spec fn position(s: Seq<char>, a: char, b: char) -> int
    decreases s.len(),
{
    if s.len() == 0 || s[0] == a || s[0] == b {
        0
    } else {
        1 + position(s.skip(1), a, b)
    }
}

/// `s` without the sign that may lead it.
pub open spec fn without_sign(s: Seq<char>) -> Seq<char> {
    if s.len() > 0 && (s[0] == '+' || s[0] == '-') {
        s.skip(1)
    } else {
        s
    }
}

/// Digits, a point among them or at either end, and one digit at least.
pub open spec fn is_mantissa(m: Seq<char>) -> bool {
    let point = position(m, '.', '.');
    let whole = m.take(point);
    let fraction = if point < m.len() {
        m.skip(point + 1)
    } else {
        Seq::<char>::empty()
    };
    all_digits(whole, false) && all_digits(fraction, false) && whole.len() + fraction.len() > 0
}

/// One digit or more, after a sign or none.
pub open spec fn is_exponent(x: Seq<char>) -> bool {
    let digits = without_sign(x);
    digits.len() > 0 && all_digits(digits, false)
}

/// A mantissa, and after it nothing or `e` and an exponent.
pub open spec fn is_number(body: Seq<char>) -> bool {
    let e = position(body, 'e', 'E');
    is_mantissa(body.take(e)) && (e < body.len() ==> is_exponent(body.skip(e + 1)))
}

/// One of the words `inf`, `infinity` and `nan`, in any mix of case.
pub open spec fn is_special(body: Seq<char>) -> bool {
    let l = lowered(body);
    l == "inf"@ || l == "infinity"@ || l == "nan"@
}

/// Whether a cell spells a decimal number: after a sign or none, a number
/// in positional or scientific notation, or one of the special words.
pub open spec fn is_decimal(cell: Seq<char>) -> bool {
    let body = without_sign(cell);
    is_special(body) || is_number(body)
}

/// A decimal number, held as its text. Two of them are equal where their
/// texts are: `1.0` and `1.00` are not.
#[derive(Debug, PartialEq, Eq)]
pub struct Decimal {
    text: String,
}

impl View for Decimal {
    type V = Seq<char>;

    closed spec fn view(&self) -> Seq<char> {
        self.text@
    }
}

impl Clone for Decimal {
    fn clone(&self) -> (copy: Decimal)
        ensures
            copy@ == self@,
    {
        proof {
            use_type_invariant(self);
        }
        Decimal { text: self.text.clone() }
    }
}

impl Decimal {
    #[verifier::type_invariant]
    closed spec fn spells_a_number(&self) -> bool {
        is_decimal(self.text@)
    }

    /// Decodes a cell that holds a decimal number.
    pub fn parse(value: &str) -> (r: Result<Decimal, FieldError>)
        ensures
            match r {
                Ok(d) => is_decimal(value@) && d@ == value@,
                Err(e) => !is_decimal(value@) && e@ == rejected(ErrorKind::InvalidDecimal, value@),
            },
    {
        let chars = chars_of(value);
        if spells_decimal(&chars) {
            Ok(Decimal { text: value.to_owned() })
        } else {
            Err(FieldError::new(ErrorKind::InvalidDecimal, value))
        }
    }

    /// The number as text.
    pub fn as_str(&self) -> (text: &str)
        ensures
            text@ == self@,
            is_decimal(text@),
    {
        proof {
            use_type_invariant(self);
        }
        self.text.as_str()
    }
}

/// The view of a decimal number that may be absent.
pub open spec fn decimal_view(d: Option<Decimal>) -> Option<Seq<char>> {
    match d {
        Some(d) => Some(d@),
        None => None,
    }
}

/// The view of a borrowed decimal number that may be absent.
pub open spec fn decimal_ref_view(d: Option<&Decimal>) -> Option<Seq<char>> {
    match d {
        Some(d) => Some(d@),
        None => None,
    }
}

/// Copies a decimal number that may be absent.
pub fn copy_of(d: Option<&Decimal>) -> (copy: Option<Decimal>)
    ensures
        decimal_view(copy) == decimal_ref_view(d),
{
    match d {
        Some(d) => Some(d.clone()),
        None => None,
    }
}

/// Finds the first `a` or `b` in `chars[from..to]`.
fn find(chars: &Vec<char>, from: usize, to: usize, a: char, b: char) -> (at: usize)
    requires
        from <= to <= chars.len(),
    ensures
        from <= at <= to,
        at - from == position(chars@.subrange(from as int, to as int), a, b),
{
    let mut i: usize = from;
    while i < to && chars[i] != a && chars[i] != b
        invariant
            from <= i <= to <= chars.len(),
            position(chars@.subrange(from as int, to as int), a, b) == (i - from) + position(
                chars@.subrange(i as int, to as int),
                a,
                b,
            ),
        decreases to - i,
    {
        assert(chars@.subrange(i as int, to as int).skip(1) =~= chars@.subrange(i + 1, to as int));
        i = i + 1;
    }
    i
}

/// Whether `chars[from..to]` holds decimal digits only.
fn digits_only(chars: &Vec<char>, from: usize, to: usize) -> (yes: bool)
    requires
        from <= to <= chars.len(),
    ensures
        yes == all_digits(chars@.subrange(from as int, to as int), false),
{
    let mut i: usize = from;
    while i < to
        invariant
            from <= i <= to <= chars.len(),
            all_digits(chars@.subrange(from as int, i as int), false),
        decreases to - i,
    {
        if !('0' <= chars[i] && chars[i] <= '9') {
            assert(digit(chars@.subrange(from as int, to as int)[i - from], false) is None);
            return false;
        }
        i = i + 1;
    }
    true
}

/// Whether `chars[from..]`, lower-cased, spell `word`.
fn spells_ignoring_case(chars: &Vec<char>, from: usize, word: &str) -> (yes: bool)
    requires
        from <= chars.len(),
    ensures
        yes == (lowered(chars@.skip(from as int)) == word@),
{
    let w = chars_of(word);
    let ghost body = chars@.skip(from as int);
    if chars.len() - from != w.len() {
        assert(lowered(body).len() != word@.len());
        return false;
    }
    let mut i: usize = 0;
    while i < w.len()
        invariant
            from <= chars.len(),
            chars.len() - from == w.len(),
            i <= w.len(),
            w@ == word@,
            body == chars@.skip(from as int),
            forall|j: int| 0 <= j < i ==> lower(body[j]) == w@[j],
        decreases w.len() - i,
    {
        if to_lower(chars[from + i]) != w[i] {
            assert(lowered(body)[i as int] != word@[i as int]);
            return false;
        }
        i = i + 1;
    }
    assert(lowered(body) =~= word@);
    true
}

/// Whether `chars` spell a decimal number.
fn spells_decimal(chars: &Vec<char>) -> (yes: bool)
    ensures
        yes == is_decimal(chars@),
{
    let n = chars.len();
    let from: usize = if n > 0 && (chars[0] == '+' || chars[0] == '-') {
        1
    } else {
        0
    };
    let ghost body = chars@.skip(from as int);
    assert(chars@.skip(0) =~= chars@);
    assert(body == without_sign(chars@));
    assert(body =~= chars@.subrange(from as int, n as int));
    if spells_ignoring_case(chars, from, "inf") || spells_ignoring_case(chars, from, "infinity")
        || spells_ignoring_case(chars, from, "nan") {
        return true;
    }
    assert(!is_special(body));
    let e = find(chars, from, n, 'e', 'E');
    let point = find(chars, from, e, '.', '.');
    let ghost m = body.take(e - from);
    proof {
        assert(m =~= chars@.subrange(from as int, e as int));
        assert(m.take(point - from) =~= chars@.subrange(from as int, point as int));
        if point < e {
            assert(m.skip(point - from + 1) =~= chars@.subrange(point + 1, e as int));
        }
    }
    let whole = digits_only(chars, from, point);
    let mantissa = if point < e {
        whole && digits_only(chars, point + 1, e) && e - from > 1
    } else {
        whole && e - from > 0
    };
    assert(mantissa == is_mantissa(m));
    if !mantissa {
        return false;
    }
    if e == n {
        return true;
    }
    let ghost x = body.skip(e - from + 1);
    assert(x =~= chars@.subrange(e + 1, n as int));
    let digits: usize = if e + 1 < n && (chars[e + 1] == '+' || chars[e + 1] == '-') {
        e + 2
    } else {
        e + 1
    };
    proof {
        if digits == e + 2 {
            assert(x.skip(1) =~= chars@.subrange(digits as int, n as int));
        }
        assert(without_sign(x) =~= chars@.subrange(digits as int, n as int));
    }
    digits < n && digits_only(chars, digits, n)
}

} // verus!
