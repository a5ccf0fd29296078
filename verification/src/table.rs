//! Tables: from the records of one dataset to a map from identifier to
//! record.
//!
//! The first record of a dataset is its header, which names the columns.
//! Every later record is decoded by those names, so the order of the columns
//! does not matter and columns that a record type does not know are ignored.
//! One row that fails stops the load: there is no partial table.

use crate::error::{malformed_row, DecodeError, DecodeFault};
use crate::source::{fields_of, fields_read, read_records, records_of};
use crate::text::same_text;
use std::collections::BTreeMap;
use std::hash::{Hash, Hasher};
use vstd::prelude::*;

verus! {

/// Type of all ID fields.
pub type Id = u64;

/// Feeds an identifier to a hasher, as `Hash::hash` of `u64` does. Nothing is
/// claimed of the hasher's state.
#[verifier::external_body]
pub(crate) fn hash_id<H: Hasher>(id: Id, state: &mut H) {
    id.hash(state)
}

/// Where a header has a column of a given name.
#[derive(Clone, Copy, Debug, PartialEq, Eq, Structural)]
pub enum Column {
    /// No column has the name.
    Missing,
    /// Two columns or more have the name.
    Duplicate,
    /// The column with this index has the name, and no other.
    At(usize),
}

/// Where `header` has the column `name`.
pub open spec fn locate(header: Seq<Seq<char>>, name: Seq<char>) -> Column {
    if exists|i: int, j: int| 0 <= i < j < header.len() && header[i] == name && header[j] == name {
        Column::Duplicate
    } else if exists|i: int| 0 <= i < header.len() && header[i] == name {
        Column::At((choose|i: int| 0 <= i < header.len() && header[i] == name) as usize)
    } else {
        Column::Missing
    }
}

/// What a row holds in a column.
#[derive(Clone, Copy, Debug)]
pub enum Cell<'a> {
    /// The header has no such column.
    Missing,
    /// The header has the column twice or more.
    Duplicate,
    /// The text of the cell.
    Text(&'a str),
}

/// What a [`Cell`] says.
pub ghost enum CellText {
    Missing,
    Duplicate,
    Text(Seq<char>),
}

impl<'a> View for Cell<'a> {
    type V = CellText;

    open spec fn view(&self) -> CellText {
        match self {
            Cell::Missing => CellText::Missing,
            Cell::Duplicate => CellText::Duplicate,
            Cell::Text(s) => CellText::Text(s@),
        }
    }
}

/// What the row `fields` holds at `column`.
pub open spec fn cell_at(column: Column, fields: Seq<Seq<char>>) -> CellText {
    match column {
        Column::Missing => CellText::Missing,
        Column::Duplicate => CellText::Duplicate,
        Column::At(i) => if i < fields.len() {
            CellText::Text(fields[i as int])
        } else {
            CellText::Missing
        },
    }
}

/// Finds the column `name` in a header.
pub fn find_column(header: &csv::StringRecord, name: &str) -> (column: Column)
    ensures
        column == locate(fields_of(*header), name@),
{
    let ghost h = fields_of(*header);
    let n = header.len();
    let mut found: Option<usize> = None;
    let mut i: usize = 0;
    while i < n
        invariant
            h == fields_of(*header),
            n == h.len(),
            i <= n,
            match found {
                Some(k) => k < i && h[k as int] == name@ && forall|j: int|
                    0 <= j < i && j != k ==> h[j] != name@,
                None => forall|j: int| 0 <= j < i ==> h[j] != name@,
            },
        decreases n - i,
    {
        match header.get(i) {
            Some(field) => {
                if same_text(field, name) {
                    match found {
                        Some(k) => {
                            assert(0 <= k < i < h.len() && h[k as int] == name@ && h[i as int]
                                == name@);
                            return Column::Duplicate;
                        },
                        None => {
                            found = Some(i);
                        },
                    }
                }
            },
            None => {},
        }
        i = i + 1;
    }
    match found {
        Some(k) => {
            assert(0 <= k < h.len() && h[k as int] == name@);
            Column::At(k)
        },
        None => Column::Missing,
    }
}

/// Reads the cell of a row at a column.
pub fn cell<'a>(column: Column, row: &'a csv::StringRecord) -> (c: Cell<'a>)
    ensures
        c@ == cell_at(column, fields_of(*row)),
{
    match column {
        Column::Missing => Cell::Missing,
        Column::Duplicate => Cell::Duplicate,
        Column::At(i) => match row.get(i) {
            Some(s) => Cell::Text(s),
            None => Cell::Missing,
        },
    }
}

/// A record type that a table can hold.
pub trait Record: Sized + View {
    /// Where a header has each column of this record type.
    type Columns;

    /// The identifier of a record.
    spec fn key_of(v: Self::V) -> Id;

    /// Where `header` has the columns of this record type.
    spec fn columns(header: Seq<Seq<char>>) -> Self::Columns;

    /// What the row `fields` decodes to, its cells taken at `columns`: the
    /// record, or the fault of the first field that fails, in the order in
    /// which the record type declares its fields.
    spec fn decoded(columns: Self::Columns, fields: Seq<Seq<char>>, row: nat) -> Result<
        Self::V,
        DecodeFault,
    >;

    /// The identifier of this record.
    fn key(&self) -> (k: Id)
        ensures
            k == Self::key_of(self@),
    ;

    /// Finds the columns of this record type in a header.
    fn find_columns(header: &csv::StringRecord) -> (columns: Self::Columns)
        ensures
            columns == Self::columns(fields_of(*header)),
    ;

    /// Decodes one row, its cells taken at `columns`.
    fn decode(columns: &Self::Columns, row: &csv::StringRecord, number: usize) -> (r: Result<
        Self,
        DecodeError,
    >)
        ensures
            outcome(r) == Self::decoded(*columns, fields_of(*row), number as nat),
    ;
}

/// What a decoding returned, as the record's view and the error's.
pub open spec fn outcome<R: View>(r: Result<R, DecodeError>) -> Result<R::V, DecodeFault> {
    match r {
        Ok(record) => Ok(record@),
        Err(e) => Err(e@),
    }
}

/// What the record `row` of a dataset decodes to under `header`. A row that
/// the reader rejected, and one that has more or fewer cells than the
/// header, is malformed.
pub open spec fn row_decoded<R: Record>(
    header: Seq<Seq<char>>,
    row: Option<Seq<Seq<char>>>,
    number: nat,
) -> Result<R::V, DecodeFault> {
    match row {
        Some(fields) => if fields.len() == header.len() {
            R::decoded(R::columns(header), fields, number)
        } else {
            Err(malformed_row(number))
        },
        None => Err(malformed_row(number)),
    }
}

/// The table that the records before record `n` make under `header`: each
/// row decoded in turn and stored under its identifier, a later row
/// replacing an earlier one of the same identifier; or the fault of the
/// first row that fails.
pub open spec fn table_upto<R: Record>(
    header: Seq<Seq<char>>,
    rows: Seq<Option<Seq<Seq<char>>>>,
    n: nat,
) -> Result<Map<Id, R::V>, DecodeFault>
    decreases n,
{
    if n <= 1 {
        Ok(Map::<Id, R::V>::empty())
    } else {
        match table_upto::<R>(header, rows, (n - 1) as nat) {
            Err(e) => Err(e),
            Ok(table) => match row_decoded::<R>(header, rows[n - 1], (n - 1) as nat) {
                Err(e) => Err(e),
                Ok(record) => Ok(table.insert(R::key_of(record), record)),
            },
        }
    }
}

/// The table that a dataset makes. A dataset without records makes the
/// empty table, and so does one that has a header only.
pub open spec fn table_of<R: Record>(rows: Seq<Option<Seq<Seq<char>>>>) -> Result<
    Map<Id, R::V>,
    DecodeFault,
> {
    if rows.len() == 0 {
        Ok(Map::<Id, R::V>::empty())
    } else {
        match rows[0] {
            Some(header) => table_upto::<R>(header, rows, rows.len()),
            None => Err(malformed_row(0)),
        }
    }
}

/// The first row that fails decides: where the rows before row `i` make a
/// table and row `i` fails, the fault of row `i` is the outcome, whatever
/// follows it.
pub proof fn lemma_first_fault_decides<R: Record>(
    header: Seq<Seq<char>>,
    rows: Seq<Option<Seq<Seq<char>>>>,
    i: nat,
    n: nat,
)
    requires
        1 <= i < n,
        table_upto::<R>(header, rows, i) is Ok,
        row_decoded::<R>(header, rows[i as int], i) is Err,
    ensures
        table_upto::<R>(header, rows, n) == Err::<Map<Id, R::V>, DecodeFault>(
            row_decoded::<R>(header, rows[i as int], i)->Err_0,
        ),
    decreases n,
{
    if n > i + 1 {
        lemma_first_fault_decides::<R>(header, rows, i, (n - 1) as nat);
    }
}

/// A fault stays: where the records before record `i` make no table, neither
/// do the records before any later one.
proof fn lemma_fault_stays<R: Record>(
    header: Seq<Seq<char>>,
    rows: Seq<Option<Seq<Seq<char>>>>,
    i: nat,
    n: nat,
)
    requires
        i <= n,
        table_upto::<R>(header, rows, i) is Err,
    ensures
        table_upto::<R>(header, rows, n) is Err,
    decreases n,
{
    if n > i {
        lemma_fault_stays::<R>(header, rows, i, (n - 1) as nat);
    }
}

/// There is no partial table: a dataset of which one row fails makes no
/// table at all.
pub proof fn lemma_no_partial_table<R: Record>(rows: Seq<Option<Seq<Seq<char>>>>, i: nat)
    requires
        1 <= i < rows.len(),
        rows[0] is Some,
        row_decoded::<R>(rows[0]->Some_0, rows[i as int], i) is Err,
    ensures
        table_of::<R>(rows) is Err,
{
    let header = rows[0]->Some_0;
    assert(table_upto::<R>(header, rows, i + 1) is Err);
    lemma_fault_stays::<R>(header, rows, i + 1, rows.len());
}

/// Where the records before record `n` make a table, each of them decodes.
pub proof fn lemma_every_row_decodes<R: Record>(
    header: Seq<Seq<char>>,
    rows: Seq<Option<Seq<Seq<char>>>>,
    n: nat,
    j: nat,
)
    requires
        table_upto::<R>(header, rows, n) is Ok,
        1 <= j < n,
    ensures
        row_decoded::<R>(header, rows[j as int], j) is Ok,
    decreases n,
{
    if j + 1 < n {
        lemma_every_row_decodes::<R>(header, rows, (n - 1) as nat, j);
    }
}

/// The later row wins: a table holds the record of row `j` under its
/// identifier, unless a row after it has the same identifier.
pub proof fn lemma_later_row_wins<R: Record>(
    header: Seq<Seq<char>>,
    rows: Seq<Option<Seq<Seq<char>>>>,
    n: nat,
    j: nat,
)
    requires
        table_upto::<R>(header, rows, n) is Ok,
        1 <= j < n,
        forall|i: int|
            j < i < n ==> R::key_of((#[trigger] row_decoded::<R>(header, rows[i], i as nat))->Ok_0)
                != R::key_of(row_decoded::<R>(header, rows[j as int], j)->Ok_0),
    ensures
        row_decoded::<R>(header, rows[j as int], j) is Ok,
        ({
            let record = row_decoded::<R>(header, rows[j as int], j)->Ok_0;
            let table = table_upto::<R>(header, rows, n)->Ok_0;
            table.contains_key(R::key_of(record)) && table[R::key_of(record)] == record
        }),
    decreases n,
{
    lemma_every_row_decodes::<R>(header, rows, n, j);
    if j + 1 < n {
        lemma_later_row_wins::<R>(header, rows, (n - 1) as nat, j);
        let last = row_decoded::<R>(header, rows[n - 1], (n - 1) as nat);
        assert(R::key_of(last->Ok_0) != R::key_of(
            row_decoded::<R>(header, rows[j as int], j)->Ok_0,
        ));
    }
}

/// A table holds nothing but rows: each of its entries is the record of a
/// row, stored under the identifier of that record.
pub proof fn lemma_entries_are_rows<R: Record>(
    header: Seq<Seq<char>>,
    rows: Seq<Option<Seq<Seq<char>>>>,
    n: nat,
    k: Id,
)
    requires
        table_upto::<R>(header, rows, n) is Ok,
        table_upto::<R>(header, rows, n)->Ok_0.contains_key(k),
    ensures
        exists|j: int|
            1 <= j < n && (#[trigger] row_decoded::<R>(header, rows[j], j as nat)) == Ok::<
                R::V,
                DecodeFault,
            >(table_upto::<R>(header, rows, n)->Ok_0[k]) && R::key_of(
                table_upto::<R>(header, rows, n)->Ok_0[k],
            ) == k,
    decreases n,
{
    if n > 1 {
        let last = row_decoded::<R>(header, rows[n - 1], (n - 1) as nat);
        if R::key_of(last->Ok_0) == k {
            assert(row_decoded::<R>(header, rows[n - 1], (n - 1) as nat) == Ok::<R::V, DecodeFault>(
                table_upto::<R>(header, rows, n)->Ok_0[k],
            ));
        } else {
            lemma_entries_are_rows::<R>(header, rows, (n - 1) as nat, k);
            let j = choose|j: int|
                1 <= j < n - 1 && (#[trigger] row_decoded::<R>(header, rows[j], j as nat)) == Ok::<
                    R::V,
                    DecodeFault,
                >(table_upto::<R>(header, rows, (n - 1) as nat)->Ok_0[k]);
            assert(row_decoded::<R>(header, rows[j], j as nat) == Ok::<R::V, DecodeFault>(
                table_upto::<R>(header, rows, n)->Ok_0[k],
            ));
        }
    }
}

/// A table holds one record for each identifier: two of its entries hold
/// the same identifier exactly where they are one entry.
pub proof fn lemma_one_record_per_id<R: Record>(table: Map<Id, R>, a: Id, b: Id)
    requires
        keyed_by_id(table),
        table.contains_key(a),
        table.contains_key(b),
    ensures
        R::key_of(table[a]@) == R::key_of(table[b]@) <==> a == b,
        R::key_of(table[a]@) == R::key_of(table[b]@) ==> table[a] == table[b],
{
}

/// Loading is a function of the records, and so of the text that they were
/// read from: two loads of the same records end alike, in the same table or
/// in the same fault.
pub proof fn lemma_load_is_deterministic<R: Record>(
    rows: Seq<Option<Seq<Seq<char>>>>,
    first: Result<BTreeMap<Id, R>, DecodeError>,
    second: Result<BTreeMap<Id, R>, DecodeError>,
)
    requires
        load_outcome(first) == table_of::<R>(rows),
        load_outcome(second) == table_of::<R>(rows),
    ensures
        load_outcome(first) == load_outcome(second),
{
}

/// The records of a table by identifier, each as its view.
pub open spec fn views<R: View>(table: Map<Id, R>) -> Map<Id, R::V> {
    table.map_values(|r: R| r@)
}

/// What a load returned, as the table's view and the error's.
pub open spec fn load_outcome<R: View>(r: Result<BTreeMap<Id, R>, DecodeError>) -> Result<
    Map<Id, R::V>,
    DecodeFault,
> {
    match r {
        Ok(table) => Ok(views(table@)),
        Err(e) => Err(e@),
    }
}

/// Whether every record of a table is stored under its own identifier.
pub open spec fn keyed_by_id<R: Record>(table: Map<Id, R>) -> bool {
    forall|k: Id| #[trigger] table.contains_key(k) ==> R::key_of(table[k]@) == k
}

/// Builds the table of a dataset from what the reader made of it.
pub fn load_records<R: Record>(rows: &Vec<Result<csv::StringRecord, csv::Error>>) -> (r: Result<
    BTreeMap<Id, R>,
    DecodeError,
>)
    ensures
        load_outcome(r) == table_of::<R>(fields_read(rows@)),
        r matches Ok(table) ==> keyed_by_id(table@),
{
    let mut table: BTreeMap<Id, R> = BTreeMap::new();
    let ghost all = fields_read(rows@);
    if rows.len() == 0 {
        assert(views(table@) =~= Map::<Id, R::V>::empty());
        return Ok(table);
    }
    let header = match &rows[0] {
        Ok(header) => header,
        Err(_) => {
            return Err(DecodeError::malformed(0));
        },
    };
    let ghost h = fields_of(*header);
    let columns = R::find_columns(header);
    let width = header.len();
    let mut i: usize = 1;
    assert(views(table@) =~= Map::<Id, R::V>::empty());
    while i < rows.len()
        invariant
            1 <= i <= rows.len(),
            all == fields_read(rows@),
            all[0] == Some(h),
            columns == R::columns(h),
            width == h.len(),
            table_upto::<R>(h, all, i as nat) == Ok::<Map<Id, R::V>, DecodeFault>(views(table@)),
            keyed_by_id(table@),
        decreases rows.len() - i,
    {
        let record = match &rows[i] {
            Ok(row) => {
                if row.len() != width {
                    proof {
                        lemma_first_fault_decides::<R>(h, all, i as nat, rows.len() as nat);
                    }
                    return Err(DecodeError::malformed(i));
                }
                match R::decode(&columns, row, i) {
                    Ok(record) => record,
                    Err(e) => {
                        proof {
                            lemma_first_fault_decides::<R>(h, all, i as nat, rows.len() as nat);
                        }
                        return Err(e);
                    },
                }
            },
            Err(_) => {
                proof {
                    lemma_first_fault_decides::<R>(h, all, i as nat, rows.len() as nat);
                }
                return Err(DecodeError::malformed(i));
            },
        };
        let key = record.key();
        let ghost before = table@;
        table.insert(key, record);
        proof {
            assert(table@ == before.insert(key, record));
            assert(views(table@) =~= views(before).insert(key, record@));
        }
        i = i + 1;
    }
    Ok(table)
}

/// Reads a dataset from CSV text and builds its table.
pub fn load<R: Record>(text: &str) -> (r: Result<BTreeMap<Id, R>, DecodeError>)
    ensures
        load_outcome(r) == table_of::<R>(records_of(text@)),
        r matches Ok(table) ==> keyed_by_id(table@),
{
    let rows = read_records(text);
    load_records(&rows)
}

} // verus!
