//! The errors that decoding reports.

use vstd::prelude::*;

verus! {

/// Why a cell, a row or a header was rejected.
#[derive(Clone, Copy, Debug, PartialEq, Eq, Structural)]
pub enum ErrorKind {
    /// The reader rejected the row, or the row does not have one cell for
    /// each column of the header.
    MalformedRow,
    /// The header lacks a column that the record needs.
    MissingColumn,
    /// The header names a column of the record more than once.
    DuplicateColumn,
    /// The cell is none of `yes`, `no`, `1` and `0`.
    InvalidBoolean,
    /// The cell is no integer, or one that does not fit.
    InvalidInteger,
    /// The cell is no decimal number.
    InvalidDecimal,
    /// The cell is no code of the column's vocabulary.
    UnknownCode,
}

/// A cell that a field decoder rejected.
#[derive(Clone, Debug, PartialEq, Eq)]
pub struct FieldError {
    pub kind: ErrorKind,
    /// The cell as it stood in the source.
    pub value: String,
}

/// What a [`FieldError`] says.
pub ghost struct FieldFault {
    pub kind: ErrorKind,
    pub value: Seq<char>,
}

impl View for FieldError {
    type V = FieldFault;

    open spec fn view(&self) -> FieldFault {
        FieldFault { kind: self.kind, value: self.value@ }
    }
}

/// A failed load: the row, the column and the cell that stopped it.
#[derive(Clone, Debug, PartialEq, Eq)]
pub struct DecodeError {
    /// The record's position in the source; the header is record 0.
    pub row: usize,
    /// The column's name, empty where the whole row is at fault.
    pub column: String,
    pub kind: ErrorKind,
    /// The cell as it stood in the source, empty where there is none.
    pub value: String,
}

/// What a [`DecodeError`] says.
pub ghost struct DecodeFault {
    pub row: nat,
    pub column: Seq<char>,
    pub kind: ErrorKind,
    pub value: Seq<char>,
}

impl View for DecodeError {
    type V = DecodeFault;

    open spec fn view(&self) -> DecodeFault {
        DecodeFault {
            row: self.row as nat,
            column: self.column@,
            kind: self.kind,
            value: self.value@,
        }
    }
}

/// The rejection of `cell` for the reason `kind`.
pub open spec fn rejected(kind: ErrorKind, cell: Seq<char>) -> FieldFault {
    FieldFault { kind, value: cell }
}

/// The fault of the cell in `column` of the record `row`.
pub open spec fn located(row: nat, column: Seq<char>, fault: FieldFault) -> DecodeFault {
    DecodeFault { row, column, kind: fault.kind, value: fault.value }
}

/// The fault of a whole row.
pub open spec fn malformed_row(row: nat) -> DecodeFault {
    DecodeFault {
        row,
        column: Seq::<char>::empty(),
        kind: ErrorKind::MalformedRow,
        value: Seq::<char>::empty(),
    }
}

impl FieldError {
    /// A rejection of the cell `value`.
    pub fn new(kind: ErrorKind, value: &str) -> (e: FieldError)
        ensures
            e@ == rejected(kind, value@),
    {
        FieldError { kind, value: value.to_owned() }
    }

    /// The fault of a column, where no cell is to blame.
    pub fn of_column(kind: ErrorKind) -> (e: FieldError)
        ensures
            e@ == rejected(kind, Seq::<char>::empty()),
    {
        FieldError { kind, value: String::new() }
    }
}

impl DecodeError {
    /// Places the fault of a cell in its row and column.
    pub fn at(row: usize, column: &str, fault: FieldError) -> (e: DecodeError)
        ensures
            e@ == located(row as nat, column@, fault@),
    {
        DecodeError { row, column: column.to_owned(), kind: fault.kind, value: fault.value }
    }

    /// The fault of a whole row.
    pub fn malformed(row: usize) -> (e: DecodeError)
        ensures
            e@ == malformed_row(row as nat),
    {
        DecodeError {
            row,
            column: String::new(),
            kind: ErrorKind::MalformedRow,
            value: String::new(),
        }
    }
}

} // verus!
