//! The boundary with the `csv` crate, which splits a text into records and
//! each record into fields.
//!
//! Nothing in this file is proved. What the rest of the library knows of the
//! reader is stated here, each statement beside the outside function that it
//! is about.

use vstd::prelude::*;

verus! {

/// `csv::StringRecord`, one record of a CSV text. Its fields are read
/// through `len` and `get` below and in no other way.
#[verifier::external_type_specification]
#[verifier::external_body]
pub struct ExStringRecord(csv::StringRecord);

/// `csv::Error`, the reader's reason to reject a record. It is carried, never
/// looked into.
#[verifier::external_type_specification]
#[verifier::external_body]
pub struct ExError(csv::Error);

/// The fields that a record holds, in column order.
pub uninterp spec fn fields_of(record: csv::StringRecord) -> Seq<Seq<char>>;

/// What the reader makes of a text: its records in order, the header first.
/// A record that the reader rejects stands as `None` in its place.
pub uninterp spec fn records_of(text: Seq<char>) -> Seq<Option<Seq<Seq<char>>>>;

/// `csv::StringRecord::len` returns the number of fields in the record.
pub assume_specification[ csv::StringRecord::len ](record: &csv::StringRecord) -> (n: usize)
    ensures
        n == fields_of(*record).len(),
;

/// `csv::StringRecord::get` returns the field at index `i`, and `None` where
/// the record has no such field.
pub assume_specification[ csv::StringRecord::get ](record: &csv::StringRecord, i: usize) -> (field:
    Option<&str>)
    ensures
        match field {
            Some(s) => i < fields_of(*record).len() && s@ == fields_of(*record)[i as int],
            None => i >= fields_of(*record).len(),
        },
;

/// What a vector of the reader's results says: the fields of each record
/// that was read, and `None` for each that was rejected.
pub open spec fn fields_read(rows: Seq<Result<csv::StringRecord, csv::Error>>) -> Seq<
    Option<Seq<Seq<char>>>,
> {
    Seq::new(
        rows.len(),
        |i: int|
            match rows[i] {
                Ok(record) => Some(fields_of(record)),
                Err(_) => None,
            },
    )
}

/// Runs a `csv::Reader` over `text` and collects what `into_records` yields.
/// The reader stands as `csv::Reader::from_reader` leaves it, but for headers:
/// it is told to read none, so the header row comes out as the first record.
/// The result depends on the text alone, which is all that is claimed here.
#[verifier::external_body]
pub(crate) fn read_records(text: &str) -> (rows: Vec<Result<csv::StringRecord, csv::Error>>)
    ensures
        fields_read(rows@) == records_of(text@),
{
    csv::ReaderBuilder::new().has_headers(false).from_reader(text.as_bytes()).into_records().collect()
}

} // verus!
