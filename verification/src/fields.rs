//! The field decoders: from the text of one cell to a typed value.
//!
//! A decoder either gives the value or rejects the cell; it never guesses.
//! The decoders of the vocabularies stand beside their vocabularies, those
//! of numbers in [`crate::integer`] and [`crate::decimal`].

use crate::decimal::{decimal_view, is_decimal, Decimal};
use crate::error::{rejected, ErrorKind, FieldError, FieldFault};
use crate::integer::{i32_from_str, signed_32, u64_from_str, unsigned_64};
use crate::table::{Cell, CellText, Id};
use crate::text::{
    chars_of, lowered, lowered_chars, pieces, space, spells, trim_end, trim_start, trimmed,
};
use vstd::prelude::*;

verus! {

/// The truth value that a cell denotes: `yes` and `1` are true, `no` and `0`
/// are false, in any mix of upper and lower case.
pub open spec fn boolean(cell: Seq<char>) -> Option<bool> {
    let l = lowered(cell);
    if l == "yes"@ || l == "1"@ {
        Some(true)
    } else if l == "no"@ || l == "0"@ {
        Some(false)
    } else {
        None
    }
}

/// The keywords that a cell lists: none for the empty cell, else its pieces
/// between commas, each without the white space around it, in order, empty
/// and repeated ones kept.
pub open spec fn keyword_list(cell: Seq<char>) -> Seq<Seq<char>> {
    if cell.len() == 0 {
        Seq::<Seq<char>>::empty()
    } else {
        pieces(cell).map_values(|p: Seq<char>| trimmed(p))
    }
}

/// Decodes a boolean cell.
pub fn bool_from_str(value: &str) -> (r: Result<bool, FieldError>)
    ensures
        match r {
            Ok(b) => boolean(value@) == Some(b),
            Err(e) => boolean(value@) is None && e@ == rejected(ErrorKind::InvalidBoolean, value@),
        },
{
    let l = lowered_chars(value);
    if spells(&l, "yes") || spells(&l, "1") {
        Ok(true)
    } else if spells(&l, "no") || spells(&l, "0") {
        Ok(false)
    } else {
        Err(FieldError::new(ErrorKind::InvalidBoolean, value))
    }
}

/// The bounds of `chars[from..to]` once the white space around it is gone.
fn trim_bounds(chars: &Vec<char>, from: usize, to: usize) -> (bounds: (usize, usize))
    requires
        from <= to <= chars.len(),
    ensures
        from <= bounds.0 <= bounds.1 <= to,
        chars@.subrange(bounds.0 as int, bounds.1 as int) == trimmed(
            chars@.subrange(from as int, to as int),
        ),
{
    let mut a: usize = from;
    while a < to && space(chars[a])
        invariant
            from <= a <= to <= chars.len(),
            trim_start(chars@.subrange(from as int, to as int)) == trim_start(
                chars@.subrange(a as int, to as int),
            ),
        decreases to - a,
    {
        assert(chars@.subrange(a as int, to as int).drop_first() =~= chars@.subrange(
            a + 1,
            to as int,
        ));
        a = a + 1;
    }
    let mut b: usize = to;
    while a < b && space(chars[b - 1])
        invariant
            a <= b <= to <= chars.len(),
            trim_end(chars@.subrange(a as int, to as int)) == trim_end(
                chars@.subrange(a as int, b as int),
            ),
        decreases b - a,
    {
        assert(chars@.subrange(a as int, b as int).drop_last() =~= chars@.subrange(
            a as int,
            b - 1,
        ));
        b = b - 1;
    }
    (a, b)
}

/// Decodes a cell that lists keywords.
pub fn vec_string_from_string(value: &str) -> (keywords: Vec<String>)
    ensures
        keywords.deep_view() == keyword_list(value@),
{
    let chars = chars_of(value);
    let mut keywords: Vec<String> = Vec::new();
    if chars.len() == 0 {
        assert(keywords.deep_view() =~= keyword_list(value@));
        return keywords;
    }
    let ghost mut done: Seq<Seq<char>> = Seq::empty();
    let mut start: usize = 0;
    let mut i: usize = 0;
    proof {
        assert(chars@.take(0).len() == 0);
        assert(chars@.subrange(0, 0) =~= Seq::<char>::empty());
        assert(pieces(chars@.take(0)) =~= done.push(chars@.subrange(0, 0)));
        assert(keywords.deep_view() =~= done.map_values(|p: Seq<char>| trimmed(p)));
    }
    while i < chars.len()
        invariant
            chars@ == value@,
            start <= i <= chars.len(),
            pieces(chars@.take(i as int)) == done.push(chars@.subrange(start as int, i as int)),
            keywords.deep_view() == done.map_values(|p: Seq<char>| trimmed(p)),
        decreases chars.len() - i,
    {
        proof {
            let s = chars@.take(i + 1);
            assert(s.drop_last() =~= chars@.take(i as int));
            assert(s.last() == chars@[i as int]);
        }
        if chars[i] == ',' {
            let (a, b) = trim_bounds(&chars, start, i);
            let word = value.substring_char(a, b).to_owned();
            proof {
                let piece = chars@.subrange(start as int, i as int);
                assert(keywords.deep_view().push(word@) =~= done.push(piece).map_values(
                    |p: Seq<char>| trimmed(p),
                ));
                done = done.push(piece);
                assert(chars@.subrange(i + 1, i + 1) =~= Seq::<char>::empty());
            }
            let ghost before = keywords.deep_view();
            keywords.push(word);
            assert(keywords.deep_view() =~= before.push(word@));
            start = i + 1;
        } else {
            proof {
                let before = pieces(chars@.take(i as int));
                assert(before.drop_last() =~= done);
                assert(chars@.subrange(start as int, i as int).push(chars@[i as int])
                    =~= chars@.subrange(start as int, i + 1));
            }
        }
        i = i + 1;
    }
    let (a, b) = trim_bounds(&chars, start, chars.len());
    let word = value.substring_char(a, b).to_owned();
    proof {
        assert(chars@.take(chars.len() as int) =~= chars@);
        let piece = chars@.subrange(start as int, chars.len() as int);
        assert(keywords.deep_view().push(word@) =~= done.push(piece).map_values(
            |p: Seq<char>| trimmed(p),
        ));
    }
    let ghost before = keywords.deep_view();
    keywords.push(word);
    assert(keywords.deep_view() =~= before.push(word@));
    keywords
}

/// The text of a cell that a record cannot do without.
pub open spec fn required(cell: CellText) -> Result<Seq<char>, FieldFault> {
    match cell {
        CellText::Text(s) => Ok(s),
        CellText::Missing => Err(rejected(ErrorKind::MissingColumn, Seq::<char>::empty())),
        CellText::Duplicate => Err(rejected(ErrorKind::DuplicateColumn, Seq::<char>::empty())),
    }
}

/// The text of a cell that a record can do without: none where the header
/// lacks the column, and none where the cell is empty.
pub open spec fn optional(cell: CellText) -> Result<Option<Seq<char>>, FieldFault> {
    match cell {
        CellText::Text(s) => if s.len() == 0 {
            Ok(None)
        } else {
            Ok(Some(s))
        },
        CellText::Missing => Ok(None),
        CellText::Duplicate => Err(rejected(ErrorKind::DuplicateColumn, Seq::<char>::empty())),
    }
}

/// What a cell of free text holds.
pub open spec fn text_field(cell: CellText) -> Result<Seq<char>, FieldFault> {
    required(cell)
}

/// What a cell of identifiers holds.
pub open spec fn id_field(cell: CellText) -> Result<Id, FieldFault> {
    match required(cell) {
        Err(e) => Err(e),
        Ok(s) => match unsigned_64(s) {
            Some(v) => Ok(v),
            None => Err(rejected(ErrorKind::InvalidInteger, s)),
        },
    }
}

/// What a cell of lengths or elevations holds, in feet.
pub open spec fn feet_field(cell: CellText) -> Result<Option<i32>, FieldFault> {
    match optional(cell) {
        Err(e) => Err(e),
        Ok(None) => Ok(None),
        Ok(Some(s)) => match signed_32(s) {
            Some(v) => Ok(Some(v)),
            None => Err(rejected(ErrorKind::InvalidInteger, s)),
        },
    }
}

/// What a cell holds that must give a decimal number.
pub open spec fn decimal_field(cell: CellText) -> Result<Seq<char>, FieldFault> {
    match required(cell) {
        Err(e) => Err(e),
        Ok(s) => if is_decimal(s) {
            Ok(s)
        } else {
            Err(rejected(ErrorKind::InvalidDecimal, s))
        },
    }
}

/// What a cell holds that may give a decimal number.
pub open spec fn degrees_field(cell: CellText) -> Result<Option<Seq<char>>, FieldFault> {
    match optional(cell) {
        Err(e) => Err(e),
        Ok(None) => Ok(None),
        Ok(Some(s)) => if is_decimal(s) {
            Ok(Some(s))
        } else {
            Err(rejected(ErrorKind::InvalidDecimal, s))
        },
    }
}

/// What a cell of truth values holds.
pub open spec fn boolean_field(cell: CellText) -> Result<bool, FieldFault> {
    match required(cell) {
        Err(e) => Err(e),
        Ok(s) => match boolean(s) {
            Some(b) => Ok(b),
            None => Err(rejected(ErrorKind::InvalidBoolean, s)),
        },
    }
}

/// What a cell of keywords holds.
pub open spec fn keywords_field(cell: CellText) -> Result<Seq<Seq<char>>, FieldFault> {
    match required(cell) {
        Err(e) => Err(e),
        Ok(s) => Ok(keyword_list(s)),
    }
}

/// Takes the text of a cell that a record cannot do without.
pub fn required_text<'a>(cell: Cell<'a>) -> (r: Result<&'a str, FieldError>)
    ensures
        match r {
            Ok(text) => required(cell@) == Ok::<Seq<char>, FieldFault>(text@),
            Err(e) => required(cell@) == Err::<Seq<char>, FieldFault>(e@),
        },
{
    match cell {
        Cell::Text(s) => Ok(s),
        Cell::Missing => Err(FieldError::of_column(ErrorKind::MissingColumn)),
        Cell::Duplicate => Err(FieldError::of_column(ErrorKind::DuplicateColumn)),
    }
}

/// Takes the text of a cell that a record can do without.
pub fn optional_text<'a>(cell: Cell<'a>) -> (r: Result<Option<&'a str>, FieldError>)
    ensures
        match r {
            Ok(Some(text)) => optional(cell@) == Ok::<Option<Seq<char>>, FieldFault>(Some(text@)),
            Ok(None) => optional(cell@) == Ok::<Option<Seq<char>>, FieldFault>(None),
            Err(e) => optional(cell@) == Err::<Option<Seq<char>>, FieldFault>(e@),
        },
{
    match cell {
        Cell::Text(s) => if s.unicode_len() == 0 {
            Ok(None)
        } else {
            Ok(Some(s))
        },
        Cell::Missing => Ok(None),
        Cell::Duplicate => Err(FieldError::of_column(ErrorKind::DuplicateColumn)),
    }
}

/// Decodes a cell of free text.
pub fn text_cell(cell: Cell) -> (r: Result<String, FieldError>)
    ensures
        match r {
            Ok(v) => text_field(cell@) == Ok::<Seq<char>, FieldFault>(v@),
            Err(e) => text_field(cell@) == Err::<Seq<char>, FieldFault>(e@),
        },
{
    Ok(required_text(cell)?.to_owned())
}

/// Decodes a cell of identifiers.
pub fn id_cell(cell: Cell) -> (r: Result<Id, FieldError>)
    ensures
        match r {
            Ok(v) => id_field(cell@) == Ok::<Id, FieldFault>(v),
            Err(e) => id_field(cell@) == Err::<Id, FieldFault>(e@),
        },
{
    u64_from_str(required_text(cell)?)
}

/// Decodes a cell of lengths or elevations.
pub fn feet_cell(cell: Cell) -> (r: Result<Option<i32>, FieldError>)
    ensures
        match r {
            Ok(v) => feet_field(cell@) == Ok::<Option<i32>, FieldFault>(v),
            Err(e) => feet_field(cell@) == Err::<Option<i32>, FieldFault>(e@),
        },
{
    match optional_text(cell)? {
        Some(s) => Ok(Some(i32_from_str(s)?)),
        None => Ok(None),
    }
}

/// Decodes a cell that must give a decimal number.
pub fn decimal_cell(cell: Cell) -> (r: Result<Decimal, FieldError>)
    ensures
        match r {
            Ok(v) => decimal_field(cell@) == Ok::<Seq<char>, FieldFault>(v@),
            Err(e) => decimal_field(cell@) == Err::<Seq<char>, FieldFault>(e@),
        },
{
    Decimal::parse(required_text(cell)?)
}

/// Decodes a cell that may give a decimal number.
pub fn degrees_cell(cell: Cell) -> (r: Result<Option<Decimal>, FieldError>)
    ensures
        match r {
            Ok(v) => degrees_field(cell@) == Ok::<Option<Seq<char>>, FieldFault>(decimal_view(v)),
            Err(e) => degrees_field(cell@) == Err::<Option<Seq<char>>, FieldFault>(e@),
        },
{
    match optional_text(cell)? {
        Some(s) => Ok(Some(Decimal::parse(s)?)),
        None => Ok(None),
    }
}

/// Decodes a cell of truth values.
pub fn boolean_cell(cell: Cell) -> (r: Result<bool, FieldError>)
    ensures
        match r {
            Ok(v) => boolean_field(cell@) == Ok::<bool, FieldFault>(v),
            Err(e) => boolean_field(cell@) == Err::<bool, FieldFault>(e@),
        },
{
    bool_from_str(required_text(cell)?)
}

/// Decodes a cell of keywords.
pub fn keywords_cell(cell: Cell) -> (r: Result<Vec<String>, FieldError>)
    ensures
        match r {
            Ok(v) => keywords_field(cell@) == Ok::<Seq<Seq<char>>, FieldFault>(v.deep_view()),
            Err(e) => keywords_field(cell@) == Err::<Seq<Seq<char>>, FieldFault>(e@),
        },
{
    Ok(vec_string_from_string(required_text(cell)?))
}

} // verus!
