//! Radio frequencies of airports.

use crate::error::{located, DecodeError, DecodeFault};
use crate::fields::{id_cell, id_field, text_cell, text_field};
use crate::source::records_of;
use crate::table::{
    cell, cell_at, find_column, hash_id, keyed_by_id, load, load_outcome, locate, table_of, Column,
    Id, Record,
};
use std::cmp::Ordering;
use std::collections::BTreeMap;
use std::hash::{Hash, Hasher};
use vstd::prelude::*;
use vstd::std_specs::cmp::{PartialEqSpec, PartialOrdSpec};

verus! {

/// Represents a single airport radio frequency for voice communication.
#[derive(Clone, Debug)]
pub struct AirportFrequency {
    id: Id,
    airport_ref: Id,
    airport_ident: String,
    frequency_type: String,
    description: String,
    frequency_mhz: String,
}

/// What an [`AirportFrequency`] holds.
pub ghost struct AirportFrequencyView {
    pub id: Id,
    pub airport_ref: Id,
    pub airport_ident: Seq<char>,
    pub frequency_type: Seq<char>,
    pub description: Seq<char>,
    pub frequency_mhz: Seq<char>,
}

impl View for AirportFrequency {
    type V = AirportFrequencyView;

    closed spec fn view(&self) -> AirportFrequencyView {
        AirportFrequencyView {
            id: self.id,
            airport_ref: self.airport_ref,
            airport_ident: self.airport_ident@,
            frequency_type: self.frequency_type@,
            description: self.description@,
            frequency_mhz: self.frequency_mhz@,
        }
    }
}

impl AirportFrequency {
    /// Internal integer identifier of the frequency. It stays the same even
    /// when the radio frequency or its description changes.
    pub fn id(&self) -> (v: Id)
        ensures
            v == self@.id,
    {
        self.id
    }

    /// Internal integer identifier of the airport that the frequency belongs
    /// to: the `id` of an airport.
    pub fn airport_ref(&self) -> (v: Id)
        ensures
            v == self@.airport_ref,
    {
        self.airport_ref
    }

    /// The identifier of the airport that the frequency belongs to: the `ident`
    /// of an airport.
    pub fn airport_ident(&self) -> (v: &str)
        ensures
            v@ == self@.airport_ident,
    {
        self.airport_ident.as_str()
    }

    /// A code for the type of the frequency. The codes are common ones such as
    /// `TWR` and `ATIS`, but no fixed vocabulary.
    pub fn frequency_type(&self) -> (v: &str)
        ensures
            v@ == self@.frequency_type,
    {
        self.frequency_type.as_str()
    }

    /// A description of the frequency, typically as a pilot would open a call
    /// on it.
    pub fn description(&self) -> (v: &str)
        ensures
            v@ == self@.description,
    {
        self.description.as_str()
    }

    /// The radio voice frequency in megahertz, as text.
    pub fn frequency_mhz(&self) -> (v: &str)
        ensures
            v@ == self@.frequency_mhz,
    {
        self.frequency_mhz.as_str()
    }
}

/// Two frequencies are equal where their identifiers are.
impl PartialEq for AirportFrequency {
    fn eq(&self, other: &Self) -> (same: bool) {
        self.id == other.id
    }
}

impl Eq for AirportFrequency {
}

impl vstd::std_specs::cmp::PartialEqSpecImpl for AirportFrequency {
    open spec fn obeys_eq_spec() -> bool {
        true
    }

    open spec fn eq_spec(&self, other: &Self) -> bool {
        self@.id == other@.id
    }
}

/// Frequencies are ordered as their identifiers are.
impl PartialOrd for AirportFrequency {
    fn partial_cmp(&self, other: &Self) -> (order: Option<Ordering>) {
        if self.id < other.id {
            Some(Ordering::Less)
        } else if self.id == other.id {
            Some(Ordering::Equal)
        } else {
            Some(Ordering::Greater)
        }
    }
}

impl vstd::std_specs::cmp::PartialOrdSpecImpl for AirportFrequency {
    open spec fn obeys_partial_cmp_spec() -> bool {
        true
    }

    open spec fn partial_cmp_spec(&self, other: &Self) -> Option<Ordering> {
        if self@.id < other@.id {
            Some(Ordering::Less)
        } else if self@.id == other@.id {
            Some(Ordering::Equal)
        } else {
            Some(Ordering::Greater)
        }
    }
}

/// The hash of a frequency is that of its identifier.
impl Hash for AirportFrequency {
    fn hash<H: Hasher>(&self, state: &mut H) {
        hash_id(self.id, state)
    }
}

/// Identity alone decides: two frequencies are equal exactly where their
/// identifiers are equal, and one comes before the other exactly where its
/// identifier is the smaller, whatever else they hold.
pub proof fn lemma_identity_decides(a: AirportFrequency, b: AirportFrequency)
    ensures
        a.eq_spec(&b) <==> a@.id == b@.id,
        a.partial_cmp_spec(&b) == Some(Ordering::Equal) <==> a@.id == b@.id,
        a.partial_cmp_spec(&b) == Some(Ordering::Less) <==> a@.id < b@.id,
        a.partial_cmp_spec(&b) == Some(Ordering::Greater) <==> a@.id > b@.id,
{
}

/// Where a header has the columns of an [`AirportFrequency`].
#[derive(Clone, Copy, Debug)]
pub struct AirportFrequencyColumns {
    pub id: Column,
    pub airport_ref: Column,
    pub airport_ident: Column,
    pub frequency_type: Column,
    pub description: Column,
    pub frequency_mhz: Column,
}

impl Record for AirportFrequency {
    type Columns = AirportFrequencyColumns;

    open spec fn key_of(v: AirportFrequencyView) -> Id {
        v.id
    }

    open spec fn columns(header: Seq<Seq<char>>) -> AirportFrequencyColumns {
        AirportFrequencyColumns {
            id: locate(header, "id"@),
            airport_ref: locate(header, "airport_ref"@),
            airport_ident: locate(header, "airport_ident"@),
            frequency_type: locate(header, "type"@),
            description: locate(header, "description"@),
            frequency_mhz: locate(header, "frequency_mhz"@),
        }
    }

    open spec fn decoded(columns: AirportFrequencyColumns, fields: Seq<Seq<char>>, row: nat) -> Result<
        AirportFrequencyView,
        DecodeFault,
    > {
        let id = id_field(cell_at(columns.id, fields));
        let airport_ref = id_field(cell_at(columns.airport_ref, fields));
        let airport_ident = text_field(cell_at(columns.airport_ident, fields));
        let frequency_type = text_field(cell_at(columns.frequency_type, fields));
        let description = text_field(cell_at(columns.description, fields));
        let frequency_mhz = text_field(cell_at(columns.frequency_mhz, fields));
        if id is Err {
            Err(located(row, "id"@, id->Err_0))
        } else if airport_ref is Err {
            Err(located(row, "airport_ref"@, airport_ref->Err_0))
        } else if airport_ident is Err {
            Err(located(row, "airport_ident"@, airport_ident->Err_0))
        } else if frequency_type is Err {
            Err(located(row, "type"@, frequency_type->Err_0))
        } else if description is Err {
            Err(located(row, "description"@, description->Err_0))
        } else if frequency_mhz is Err {
            Err(located(row, "frequency_mhz"@, frequency_mhz->Err_0))
        } else {
            Ok(
                AirportFrequencyView {
                    id: id->Ok_0,
                    airport_ref: airport_ref->Ok_0,
                    airport_ident: airport_ident->Ok_0,
                    frequency_type: frequency_type->Ok_0,
                    description: description->Ok_0,
                    frequency_mhz: frequency_mhz->Ok_0,
                },
            )
        }
    }

    fn key(&self) -> (k: Id) {
        self.id
    }

    fn find_columns(header: &csv::StringRecord) -> (columns: AirportFrequencyColumns) {
        AirportFrequencyColumns {
            id: find_column(header, "id"),
            airport_ref: find_column(header, "airport_ref"),
            airport_ident: find_column(header, "airport_ident"),
            frequency_type: find_column(header, "type"),
            description: find_column(header, "description"),
            frequency_mhz: find_column(header, "frequency_mhz"),
        }
    }

    fn decode(columns: &AirportFrequencyColumns, row: &csv::StringRecord, number: usize) -> (r: Result<
        AirportFrequency,
        DecodeError,
    >) {
        let id = match id_cell(cell(columns.id, row)) {
            Ok(v) => v,
            Err(e) => {
                return Err(DecodeError::at(number, "id", e));
            },
        };
        let airport_ref = match id_cell(cell(columns.airport_ref, row)) {
            Ok(v) => v,
            Err(e) => {
                return Err(DecodeError::at(number, "airport_ref", e));
            },
        };
        let airport_ident = match text_cell(cell(columns.airport_ident, row)) {
            Ok(v) => v,
            Err(e) => {
                return Err(DecodeError::at(number, "airport_ident", e));
            },
        };
        let frequency_type = match text_cell(cell(columns.frequency_type, row)) {
            Ok(v) => v,
            Err(e) => {
                return Err(DecodeError::at(number, "type", e));
            },
        };
        let description = match text_cell(cell(columns.description, row)) {
            Ok(v) => v,
            Err(e) => {
                return Err(DecodeError::at(number, "description", e));
            },
        };
        let frequency_mhz = match text_cell(cell(columns.frequency_mhz, row)) {
            Ok(v) => v,
            Err(e) => {
                return Err(DecodeError::at(number, "frequency_mhz", e));
            },
        };
        Ok(
            AirportFrequency {
                id,
                airport_ref,
                airport_ident,
                frequency_type,
                description,
                frequency_mhz,
            },
        )
    }
}

/// Builds the table of all airport frequencies from the text of `airport-frequencies.csv`, each
/// frequency under its identifier. The first row that fails stops the load.
pub fn get_airport_frequencies_csv(content: &str) -> (r: Result<
    BTreeMap<Id, AirportFrequency>,
    DecodeError,
>)
    ensures
        load_outcome(r) == table_of::<AirportFrequency>(records_of(content@)),
        r matches Ok(table) ==> keyed_by_id(table@),
{
    load::<AirportFrequency>(content)
}

} // verus!
