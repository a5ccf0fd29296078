//! Runways and other landing surfaces, and their two ends.

use crate::decimal::{copy_of, decimal_ref_view, decimal_view, Decimal};
use crate::error::{located, DecodeError, DecodeFault};
use crate::fields::{
    boolean_cell, boolean_field, degrees_cell, degrees_field, feet_cell, feet_field, id_cell,
    id_field, text_cell, text_field,
};
use crate::location::{ContainsLocation, Elevation, Latitude, LocationView, Longitude};
use crate::source::records_of;
use crate::table::{
    cell, cell_at, find_column, hash_id, keyed_by_id, load, load_outcome, locate, table_of, Column,
    Id, Record,
};
use std::cmp::Ordering;
use std::collections::BTreeMap;
use std::hash::{Hash, Hasher};
use vstd::prelude::*;
use vstd::std_specs::cmp::{PartialEqSpec, PartialOrdSpec};

verus! {

/// Represents a single airport landing surface (runway, helipad, or waterway).
/// The fields that begin with `le_` are about the low-numbered end of the
/// runway (e.g. 09), those that begin with `he_` about the high-numbered end
/// (e.g. 27).
#[derive(Clone, Debug)]
pub struct Runway {
    id: Id,
    airport_ref: Id,
    airport_ident: String,
    length_ft: Option<i32>,
    width_ft: Option<i32>,
    surface: String,
    lighted: bool,
    closed: bool,
    le_ident: String,
    le_latitude_deg: Option<Decimal>,
    le_longitude_deg: Option<Decimal>,
    le_elevation_ft: Option<i32>,
    le_heading_deg_true: Option<Decimal>,
    le_displaced_threshold_ft: Option<i32>,
    he_ident: String,
    he_latitude_deg: Option<Decimal>,
    he_longitude_deg: Option<Decimal>,
    he_elevation_ft: Option<i32>,
    he_heading_deg_true: Option<Decimal>,
    he_displaced_threshold_ft: Option<i32>,
}

/// What a [`Runway`] holds.
pub ghost struct RunwayView {
    pub id: Id,
    pub airport_ref: Id,
    pub airport_ident: Seq<char>,
    pub length_ft: Option<i32>,
    pub width_ft: Option<i32>,
    pub surface: Seq<char>,
    pub lighted: bool,
    pub closed: bool,
    pub le_ident: Seq<char>,
    pub le_latitude_deg: Option<Seq<char>>,
    pub le_longitude_deg: Option<Seq<char>>,
    pub le_elevation_ft: Option<i32>,
    pub le_heading_deg_true: Option<Seq<char>>,
    pub le_displaced_threshold_ft: Option<i32>,
    pub he_ident: Seq<char>,
    pub he_latitude_deg: Option<Seq<char>>,
    pub he_longitude_deg: Option<Seq<char>>,
    pub he_elevation_ft: Option<i32>,
    pub he_heading_deg_true: Option<Seq<char>>,
    pub he_displaced_threshold_ft: Option<i32>,
}

impl View for Runway {
    type V = RunwayView;

    closed spec fn view(&self) -> RunwayView {
        RunwayView {
            id: self.id,
            airport_ref: self.airport_ref,
            airport_ident: self.airport_ident@,
            length_ft: self.length_ft,
            width_ft: self.width_ft,
            surface: self.surface@,
            lighted: self.lighted,
            closed: self.closed,
            le_ident: self.le_ident@,
            le_latitude_deg: decimal_view(self.le_latitude_deg),
            le_longitude_deg: decimal_view(self.le_longitude_deg),
            le_elevation_ft: self.le_elevation_ft,
            le_heading_deg_true: decimal_view(self.le_heading_deg_true),
            le_displaced_threshold_ft: self.le_displaced_threshold_ft,
            he_ident: self.he_ident@,
            he_latitude_deg: decimal_view(self.he_latitude_deg),
            he_longitude_deg: decimal_view(self.he_longitude_deg),
            he_elevation_ft: self.he_elevation_ft,
            he_heading_deg_true: decimal_view(self.he_heading_deg_true),
            he_displaced_threshold_ft: self.he_displaced_threshold_ft,
        }
    }
}

impl RunwayView {
    /// The low-numbered end of the runway, as a record of its own.
    pub open spec fn low_end(self) -> RunwayEndView {
        RunwayEndView {
            ident: self.le_ident,
            airport_ref: self.airport_ref,
            airport_ident: self.airport_ident,
            latitude_deg: self.le_latitude_deg,
            longitude_deg: self.le_longitude_deg,
            elevation_ft: self.le_elevation_ft,
            heading_deg_true: self.le_heading_deg_true,
            displaced_threshold_ft: self.le_displaced_threshold_ft,
        }
    }

    /// The high-numbered end of the runway, as a record of its own.
    pub open spec fn high_end(self) -> RunwayEndView {
        RunwayEndView {
            ident: self.he_ident,
            airport_ref: self.airport_ref,
            airport_ident: self.airport_ident,
            latitude_deg: self.he_latitude_deg,
            longitude_deg: self.he_longitude_deg,
            elevation_ft: self.he_elevation_ft,
            heading_deg_true: self.he_heading_deg_true,
            displaced_threshold_ft: self.he_displaced_threshold_ft,
        }
    }
}

impl Runway {
    /// Internal integer identifier of the runway. It stays the same even when
    /// the runway numbering changes.
    pub fn id(&self) -> (v: Id)
        ensures
            v == self@.id,
    {
        self.id
    }

    /// Internal integer identifier of the airport that the runway belongs to:
    /// the `id` of an airport.
    pub fn airport_ref(&self) -> (v: Id)
        ensures
            v == self@.airport_ref,
    {
        self.airport_ref
    }

    /// The identifier of the airport that the runway belongs to: the `ident` of
    /// an airport.
    pub fn airport_ident(&self) -> (v: &str)
        ensures
            v@ == self@.airport_ident,
    {
        self.airport_ident.as_str()
    }

    /// Length of the full runway surface in feet, displaced thresholds and
    /// overrun areas included.
    pub fn length_ft(&self) -> (v: Option<i32>)
        ensures
            v == self@.length_ft,
    {
        self.length_ft
    }

    /// Width of the runway surface in feet.
    pub fn width_ft(&self) -> (v: Option<i32>)
        ensures
            v == self@.width_ft,
    {
        self.width_ft
    }

    /// Code for the runway surface type. The codes are no fixed vocabulary.
    pub fn surface(&self) -> (v: &str)
        ensures
            v@ == self@.surface,
    {
        self.surface.as_str()
    }

    /// Whether the surface is lighted at night.
    pub fn lighted(&self) -> (v: bool)
        ensures
            v == self@.lighted,
    {
        self.lighted
    }

    /// Whether the runway surface is currently closed.
    pub fn closed(&self) -> (v: bool)
        ensures
            v == self@.closed,
    {
        self.closed
    }

    /// Identifier of the low-numbered end of the runway.
    pub fn le_ident(&self) -> (v: &str)
        ensures
            v@ == self@.le_ident,
    {
        self.le_ident.as_str()
    }

    /// Latitude of the centre of the low-numbered end of the runway in decimal
    /// degrees (positive is north), where it is known.
    pub fn le_latitude_deg(&self) -> (v: Option<&Decimal>)
        ensures
            decimal_ref_view(v) == self@.le_latitude_deg,
    {
        self.le_latitude_deg.as_ref()
    }

    /// Longitude of the centre of the low-numbered end of the runway in decimal
    /// degrees (positive is east), where it is known.
    pub fn le_longitude_deg(&self) -> (v: Option<&Decimal>)
        ensures
            decimal_ref_view(v) == self@.le_longitude_deg,
    {
        self.le_longitude_deg.as_ref()
    }

    /// Elevation of the low-numbered end of the runway above mean sea level in
    /// feet, where it is known.
    pub fn le_elevation_ft(&self) -> (v: Option<i32>)
        ensures
            v == self@.le_elevation_ft,
    {
        self.le_elevation_ft
    }

    /// Heading of the low-numbered end of the runway in degrees true, where it
    /// is known.
    pub fn le_heading_deg_true(&self) -> (v: Option<&Decimal>)
        ensures
            decimal_ref_view(v) == self@.le_heading_deg_true,
    {
        self.le_heading_deg_true.as_ref()
    }

    /// Length of the displaced threshold of the low-numbered end of the runway
    /// in feet, where it is known.
    pub fn le_displaced_threshold_ft(&self) -> (v: Option<i32>)
        ensures
            v == self@.le_displaced_threshold_ft,
    {
        self.le_displaced_threshold_ft
    }

    /// Identifier of the high-numbered end of the runway.
    pub fn he_ident(&self) -> (v: &str)
        ensures
            v@ == self@.he_ident,
    {
        self.he_ident.as_str()
    }

    /// Latitude of the centre of the high-numbered end of the runway in decimal
    /// degrees (positive is north), where it is known.
    pub fn he_latitude_deg(&self) -> (v: Option<&Decimal>)
        ensures
            decimal_ref_view(v) == self@.he_latitude_deg,
    {
        self.he_latitude_deg.as_ref()
    }

    /// Longitude of the centre of the high-numbered end of the runway in
    /// decimal degrees (positive is east), where it is known.
    pub fn he_longitude_deg(&self) -> (v: Option<&Decimal>)
        ensures
            decimal_ref_view(v) == self@.he_longitude_deg,
    {
        self.he_longitude_deg.as_ref()
    }

    /// Elevation of the high-numbered end of the runway above mean sea level in
    /// feet, where it is known.
    pub fn he_elevation_ft(&self) -> (v: Option<i32>)
        ensures
            v == self@.he_elevation_ft,
    {
        self.he_elevation_ft
    }

    /// Heading of the high-numbered end of the runway in degrees true, where it
    /// is known.
    pub fn he_heading_deg_true(&self) -> (v: Option<&Decimal>)
        ensures
            decimal_ref_view(v) == self@.he_heading_deg_true,
    {
        self.he_heading_deg_true.as_ref()
    }

    /// Length of the displaced threshold of the high-numbered end of the runway
    /// in feet, where it is known.
    pub fn he_displaced_threshold_ft(&self) -> (v: Option<i32>)
        ensures
            v == self@.he_displaced_threshold_ft,
    {
        self.he_displaced_threshold_ft
    }

    /// Extracts the low-numbered end of the runway.
    pub fn extract_le_info(&self) -> (end: RunwayEnd)
        ensures
            end@ == self@.low_end(),
    {
        RunwayEnd {
            ident: self.le_ident.clone(),
            airport_ref: self.airport_ref,
            airport_ident: self.airport_ident.clone(),
            latitude_deg: copy_of(self.le_latitude_deg.as_ref()),
            longitude_deg: copy_of(self.le_longitude_deg.as_ref()),
            elevation_ft: self.le_elevation_ft,
            heading_deg_true: copy_of(self.le_heading_deg_true.as_ref()),
            displaced_threshold_ft: self.le_displaced_threshold_ft,
        }
    }

    /// Extracts the high-numbered end of the runway.
    pub fn extract_he_info(&self) -> (end: RunwayEnd)
        ensures
            end@ == self@.high_end(),
    {
        RunwayEnd {
            ident: self.he_ident.clone(),
            airport_ref: self.airport_ref,
            airport_ident: self.airport_ident.clone(),
            latitude_deg: copy_of(self.he_latitude_deg.as_ref()),
            longitude_deg: copy_of(self.he_longitude_deg.as_ref()),
            elevation_ft: self.he_elevation_ft,
            heading_deg_true: copy_of(self.he_heading_deg_true.as_ref()),
            displaced_threshold_ft: self.he_displaced_threshold_ft,
        }
    }
}

/// Two runways are equal where their identifiers are.
impl PartialEq for Runway {
    fn eq(&self, other: &Self) -> (same: bool) {
        self.id == other.id
    }
}

impl Eq for Runway {
}

impl vstd::std_specs::cmp::PartialEqSpecImpl for Runway {
    open spec fn obeys_eq_spec() -> bool {
        true
    }

    open spec fn eq_spec(&self, other: &Self) -> bool {
        self@.id == other@.id
    }
}

/// Runways are ordered as their identifiers are.
impl PartialOrd for Runway {
    fn partial_cmp(&self, other: &Self) -> (order: Option<Ordering>) {
        if self.id < other.id {
            Some(Ordering::Less)
        } else if self.id == other.id {
            Some(Ordering::Equal)
        } else {
            Some(Ordering::Greater)
        }
    }
}

impl vstd::std_specs::cmp::PartialOrdSpecImpl for Runway {
    open spec fn obeys_partial_cmp_spec() -> bool {
        true
    }

    open spec fn partial_cmp_spec(&self, other: &Self) -> Option<Ordering> {
        if self@.id < other@.id {
            Some(Ordering::Less)
        } else if self@.id == other@.id {
            Some(Ordering::Equal)
        } else {
            Some(Ordering::Greater)
        }
    }
}

/// The hash of a runway is that of its identifier.
impl Hash for Runway {
    fn hash<H: Hasher>(&self, state: &mut H) {
        hash_id(self.id, state)
    }
}

/// Identity alone decides: two runways are equal exactly where their
/// identifiers are equal, and one comes before the other exactly where its
/// identifier is the smaller, whatever else they hold.
pub proof fn lemma_identity_decides(a: Runway, b: Runway)
    ensures
        a.eq_spec(&b) <==> a@.id == b@.id,
        a.partial_cmp_spec(&b) == Some(Ordering::Equal) <==> a@.id == b@.id,
        a.partial_cmp_spec(&b) == Some(Ordering::Less) <==> a@.id < b@.id,
        a.partial_cmp_spec(&b) == Some(Ordering::Greater) <==> a@.id > b@.id,
{
}

/// Contains information about a single end of a runway.
#[derive(Clone, Debug)]
pub struct RunwayEnd {
    ident: String,
    airport_ref: Id,
    airport_ident: String,
    latitude_deg: Option<Decimal>,
    longitude_deg: Option<Decimal>,
    elevation_ft: Option<i32>,
    heading_deg_true: Option<Decimal>,
    displaced_threshold_ft: Option<i32>,
}

/// What a [`RunwayEnd`] holds.
pub ghost struct RunwayEndView {
    pub ident: Seq<char>,
    pub airport_ref: Id,
    pub airport_ident: Seq<char>,
    pub latitude_deg: Option<Seq<char>>,
    pub longitude_deg: Option<Seq<char>>,
    pub elevation_ft: Option<i32>,
    pub heading_deg_true: Option<Seq<char>>,
    pub displaced_threshold_ft: Option<i32>,
}

impl View for RunwayEnd {
    type V = RunwayEndView;

    closed spec fn view(&self) -> RunwayEndView {
        RunwayEndView {
            ident: self.ident@,
            airport_ref: self.airport_ref,
            airport_ident: self.airport_ident@,
            latitude_deg: decimal_view(self.latitude_deg),
            longitude_deg: decimal_view(self.longitude_deg),
            elevation_ft: self.elevation_ft,
            heading_deg_true: decimal_view(self.heading_deg_true),
            displaced_threshold_ft: self.displaced_threshold_ft,
        }
    }
}

impl RunwayEnd {
    /// Identifier of this end of the runway.
    pub fn ident(&self) -> (v: &str)
        ensures
            v@ == self@.ident,
    {
        self.ident.as_str()
    }

    /// Internal integer identifier of the airport that the runway belongs to.
    pub fn airport_ref(&self) -> (v: Id)
        ensures
            v == self@.airport_ref,
    {
        self.airport_ref
    }

    /// The identifier of the airport that the runway belongs to.
    pub fn airport_ident(&self) -> (v: &str)
        ensures
            v@ == self@.airport_ident,
    {
        self.airport_ident.as_str()
    }

    /// Heading of this end of the runway in degrees true, where it is known.
    pub fn heading_deg_true(&self) -> (v: Option<&Decimal>)
        ensures
            decimal_ref_view(v) == self@.heading_deg_true,
    {
        self.heading_deg_true.as_ref()
    }

    /// Length of the displaced threshold of this end in feet, where it is
    /// known.
    pub fn displaced_threshold_ft(&self) -> (v: Option<i32>)
        ensures
            v == self@.displaced_threshold_ft,
    {
        self.displaced_threshold_ft
    }
}

impl ContainsLocation for RunwayEnd {
    open spec fn location_of(&self) -> LocationView {
        LocationView {
            latitude_deg: self@.latitude_deg,
            longitude_deg: self@.longitude_deg,
            elevation_ft: self@.elevation_ft,
        }
    }

    fn latitude_deg(&self) -> (v: Latitude<'_>) {
        self.latitude_deg.as_ref()
    }

    fn longitude_deg(&self) -> (v: Longitude<'_>) {
        self.longitude_deg.as_ref()
    }

    fn elevation_ft(&self) -> (v: Elevation) {
        self.elevation_ft
    }
}

/// Where a header has the columns of a [`Runway`].
#[derive(Clone, Copy, Debug)]
pub struct RunwayColumns {
    pub id: Column,
    pub airport_ref: Column,
    pub airport_ident: Column,
    pub length_ft: Column,
    pub width_ft: Column,
    pub surface: Column,
    pub lighted: Column,
    pub closed: Column,
    pub le_ident: Column,
    pub le_latitude_deg: Column,
    pub le_longitude_deg: Column,
    pub le_elevation_ft: Column,
    pub le_heading_deg_true: Column,
    pub le_displaced_threshold_ft: Column,
    pub he_ident: Column,
    pub he_latitude_deg: Column,
    pub he_longitude_deg: Column,
    pub he_elevation_ft: Column,
    pub he_heading_deg_true: Column,
    pub he_displaced_threshold_ft: Column,
}

impl Record for Runway {
    type Columns = RunwayColumns;

    open spec fn key_of(v: RunwayView) -> Id {
        v.id
    }

    open spec fn columns(header: Seq<Seq<char>>) -> RunwayColumns {
        RunwayColumns {
            id: locate(header, "id"@),
            airport_ref: locate(header, "airport_ref"@),
            airport_ident: locate(header, "airport_ident"@),
            length_ft: locate(header, "length_ft"@),
            width_ft: locate(header, "width_ft"@),
            surface: locate(header, "surface"@),
            lighted: locate(header, "lighted"@),
            closed: locate(header, "closed"@),
            le_ident: locate(header, "le_ident"@),
            le_latitude_deg: locate(header, "le_latitude_deg"@),
            le_longitude_deg: locate(header, "le_longitude_deg"@),
            le_elevation_ft: locate(header, "le_elevation_ft"@),
            le_heading_deg_true: locate(header, "le_heading_degT"@),
            le_displaced_threshold_ft: locate(header, "le_displaced_threshold_ft"@),
            he_ident: locate(header, "he_ident"@),
            he_latitude_deg: locate(header, "he_latitude_deg"@),
            he_longitude_deg: locate(header, "he_longitude_deg"@),
            he_elevation_ft: locate(header, "he_elevation_ft"@),
            he_heading_deg_true: locate(header, "he_heading_degT"@),
            he_displaced_threshold_ft: locate(header, "he_displaced_threshold_ft"@),
        }
    }

    open spec fn decoded(columns: RunwayColumns, fields: Seq<Seq<char>>, row: nat) -> Result<
        RunwayView,
        DecodeFault,
    > {
        let id = id_field(cell_at(columns.id, fields));
        let airport_ref = id_field(cell_at(columns.airport_ref, fields));
        let airport_ident = text_field(cell_at(columns.airport_ident, fields));
        let length_ft = feet_field(cell_at(columns.length_ft, fields));
        let width_ft = feet_field(cell_at(columns.width_ft, fields));
        let surface = text_field(cell_at(columns.surface, fields));
        let lighted = boolean_field(cell_at(columns.lighted, fields));
        let closed = boolean_field(cell_at(columns.closed, fields));
        let le_ident = text_field(cell_at(columns.le_ident, fields));
        let le_latitude_deg = degrees_field(cell_at(columns.le_latitude_deg, fields));
        let le_longitude_deg = degrees_field(cell_at(columns.le_longitude_deg, fields));
        let le_elevation_ft = feet_field(cell_at(columns.le_elevation_ft, fields));
        let le_heading_deg_true = degrees_field(cell_at(columns.le_heading_deg_true, fields));
        let le_displaced_threshold_ft = feet_field(cell_at(columns.le_displaced_threshold_ft, fields));
        let he_ident = text_field(cell_at(columns.he_ident, fields));
        let he_latitude_deg = degrees_field(cell_at(columns.he_latitude_deg, fields));
        let he_longitude_deg = degrees_field(cell_at(columns.he_longitude_deg, fields));
        let he_elevation_ft = feet_field(cell_at(columns.he_elevation_ft, fields));
        let he_heading_deg_true = degrees_field(cell_at(columns.he_heading_deg_true, fields));
        let he_displaced_threshold_ft = feet_field(cell_at(columns.he_displaced_threshold_ft, fields));
        if id is Err {
            Err(located(row, "id"@, id->Err_0))
        } else if airport_ref is Err {
            Err(located(row, "airport_ref"@, airport_ref->Err_0))
        } else if airport_ident is Err {
            Err(located(row, "airport_ident"@, airport_ident->Err_0))
        } else if length_ft is Err {
            Err(located(row, "length_ft"@, length_ft->Err_0))
        } else if width_ft is Err {
            Err(located(row, "width_ft"@, width_ft->Err_0))
        } else if surface is Err {
            Err(located(row, "surface"@, surface->Err_0))
        } else if lighted is Err {
            Err(located(row, "lighted"@, lighted->Err_0))
        } else if closed is Err {
            Err(located(row, "closed"@, closed->Err_0))
        } else if le_ident is Err {
            Err(located(row, "le_ident"@, le_ident->Err_0))
        } else if le_latitude_deg is Err {
            Err(located(row, "le_latitude_deg"@, le_latitude_deg->Err_0))
        } else if le_longitude_deg is Err {
            Err(located(row, "le_longitude_deg"@, le_longitude_deg->Err_0))
        } else if le_elevation_ft is Err {
            Err(located(row, "le_elevation_ft"@, le_elevation_ft->Err_0))
        } else if le_heading_deg_true is Err {
            Err(located(row, "le_heading_degT"@, le_heading_deg_true->Err_0))
        } else if le_displaced_threshold_ft is Err {
            Err(located(row, "le_displaced_threshold_ft"@, le_displaced_threshold_ft->Err_0))
        } else if he_ident is Err {
            Err(located(row, "he_ident"@, he_ident->Err_0))
        } else if he_latitude_deg is Err {
            Err(located(row, "he_latitude_deg"@, he_latitude_deg->Err_0))
        } else if he_longitude_deg is Err {
            Err(located(row, "he_longitude_deg"@, he_longitude_deg->Err_0))
        } else if he_elevation_ft is Err {
            Err(located(row, "he_elevation_ft"@, he_elevation_ft->Err_0))
        } else if he_heading_deg_true is Err {
            Err(located(row, "he_heading_degT"@, he_heading_deg_true->Err_0))
        } else if he_displaced_threshold_ft is Err {
            Err(located(row, "he_displaced_threshold_ft"@, he_displaced_threshold_ft->Err_0))
        } else {
            Ok(
                RunwayView {
                    id: id->Ok_0,
                    airport_ref: airport_ref->Ok_0,
                    airport_ident: airport_ident->Ok_0,
                    length_ft: length_ft->Ok_0,
                    width_ft: width_ft->Ok_0,
                    surface: surface->Ok_0,
                    lighted: lighted->Ok_0,
                    closed: closed->Ok_0,
                    le_ident: le_ident->Ok_0,
                    le_latitude_deg: le_latitude_deg->Ok_0,
                    le_longitude_deg: le_longitude_deg->Ok_0,
                    le_elevation_ft: le_elevation_ft->Ok_0,
                    le_heading_deg_true: le_heading_deg_true->Ok_0,
                    le_displaced_threshold_ft: le_displaced_threshold_ft->Ok_0,
                    he_ident: he_ident->Ok_0,
                    he_latitude_deg: he_latitude_deg->Ok_0,
                    he_longitude_deg: he_longitude_deg->Ok_0,
                    he_elevation_ft: he_elevation_ft->Ok_0,
                    he_heading_deg_true: he_heading_deg_true->Ok_0,
                    he_displaced_threshold_ft: he_displaced_threshold_ft->Ok_0,
                },
            )
        }
    }

    fn key(&self) -> (k: Id) {
        self.id
    }

    fn find_columns(header: &csv::StringRecord) -> (columns: RunwayColumns) {
        RunwayColumns {
            id: find_column(header, "id"),
            airport_ref: find_column(header, "airport_ref"),
            airport_ident: find_column(header, "airport_ident"),
            length_ft: find_column(header, "length_ft"),
            width_ft: find_column(header, "width_ft"),
            surface: find_column(header, "surface"),
            lighted: find_column(header, "lighted"),
            closed: find_column(header, "closed"),
            le_ident: find_column(header, "le_ident"),
            le_latitude_deg: find_column(header, "le_latitude_deg"),
            le_longitude_deg: find_column(header, "le_longitude_deg"),
            le_elevation_ft: find_column(header, "le_elevation_ft"),
            le_heading_deg_true: find_column(header, "le_heading_degT"),
            le_displaced_threshold_ft: find_column(header, "le_displaced_threshold_ft"),
            he_ident: find_column(header, "he_ident"),
            he_latitude_deg: find_column(header, "he_latitude_deg"),
            he_longitude_deg: find_column(header, "he_longitude_deg"),
            he_elevation_ft: find_column(header, "he_elevation_ft"),
            he_heading_deg_true: find_column(header, "he_heading_degT"),
            he_displaced_threshold_ft: find_column(header, "he_displaced_threshold_ft"),
        }
    }

    fn decode(columns: &RunwayColumns, row: &csv::StringRecord, number: usize) -> (r: Result<
        Runway,
        DecodeError,
    >) {
        let id = match id_cell(cell(columns.id, row)) {
            Ok(v) => v,
            Err(e) => {
                return Err(DecodeError::at(number, "id", e));
            },
        };
        let airport_ref = match id_cell(cell(columns.airport_ref, row)) {
            Ok(v) => v,
            Err(e) => {
                return Err(DecodeError::at(number, "airport_ref", e));
            },
        };
        let airport_ident = match text_cell(cell(columns.airport_ident, row)) {
            Ok(v) => v,
            Err(e) => {
                return Err(DecodeError::at(number, "airport_ident", e));
            },
        };
        let length_ft = match feet_cell(cell(columns.length_ft, row)) {
            Ok(v) => v,
            Err(e) => {
                return Err(DecodeError::at(number, "length_ft", e));
            },
        };
        let width_ft = match feet_cell(cell(columns.width_ft, row)) {
            Ok(v) => v,
            Err(e) => {
                return Err(DecodeError::at(number, "width_ft", e));
            },
        };
        let surface = match text_cell(cell(columns.surface, row)) {
            Ok(v) => v,
            Err(e) => {
                return Err(DecodeError::at(number, "surface", e));
            },
        };
        let lighted = match boolean_cell(cell(columns.lighted, row)) {
            Ok(v) => v,
            Err(e) => {
                return Err(DecodeError::at(number, "lighted", e));
            },
        };
        let closed = match boolean_cell(cell(columns.closed, row)) {
            Ok(v) => v,
            Err(e) => {
                return Err(DecodeError::at(number, "closed", e));
            },
        };
        let le_ident = match text_cell(cell(columns.le_ident, row)) {
            Ok(v) => v,
            Err(e) => {
                return Err(DecodeError::at(number, "le_ident", e));
            },
        };
        let le_latitude_deg = match degrees_cell(cell(columns.le_latitude_deg, row)) {
            Ok(v) => v,
            Err(e) => {
                return Err(DecodeError::at(number, "le_latitude_deg", e));
            },
        };
        let le_longitude_deg = match degrees_cell(cell(columns.le_longitude_deg, row)) {
            Ok(v) => v,
            Err(e) => {
                return Err(DecodeError::at(number, "le_longitude_deg", e));
            },
        };
        let le_elevation_ft = match feet_cell(cell(columns.le_elevation_ft, row)) {
            Ok(v) => v,
            Err(e) => {
                return Err(DecodeError::at(number, "le_elevation_ft", e));
            },
        };
        let le_heading_deg_true = match degrees_cell(cell(columns.le_heading_deg_true, row)) {
            Ok(v) => v,
            Err(e) => {
                return Err(DecodeError::at(number, "le_heading_degT", e));
            },
        };
        let le_displaced_threshold_ft = match feet_cell(cell(columns.le_displaced_threshold_ft, row)) {
            Ok(v) => v,
            Err(e) => {
                return Err(DecodeError::at(number, "le_displaced_threshold_ft", e));
            },
        };
        let he_ident = match text_cell(cell(columns.he_ident, row)) {
            Ok(v) => v,
            Err(e) => {
                return Err(DecodeError::at(number, "he_ident", e));
            },
        };
        let he_latitude_deg = match degrees_cell(cell(columns.he_latitude_deg, row)) {
            Ok(v) => v,
            Err(e) => {
                return Err(DecodeError::at(number, "he_latitude_deg", e));
            },
        };
        let he_longitude_deg = match degrees_cell(cell(columns.he_longitude_deg, row)) {
            Ok(v) => v,
            Err(e) => {
                return Err(DecodeError::at(number, "he_longitude_deg", e));
            },
        };
        let he_elevation_ft = match feet_cell(cell(columns.he_elevation_ft, row)) {
            Ok(v) => v,
            Err(e) => {
                return Err(DecodeError::at(number, "he_elevation_ft", e));
            },
        };
        let he_heading_deg_true = match degrees_cell(cell(columns.he_heading_deg_true, row)) {
            Ok(v) => v,
            Err(e) => {
                return Err(DecodeError::at(number, "he_heading_degT", e));
            },
        };
        let he_displaced_threshold_ft = match feet_cell(cell(columns.he_displaced_threshold_ft, row)) {
            Ok(v) => v,
            Err(e) => {
                return Err(DecodeError::at(number, "he_displaced_threshold_ft", e));
            },
        };
        Ok(
            Runway {
                id,
                airport_ref,
                airport_ident,
                length_ft,
                width_ft,
                surface,
                lighted,
                closed,
                le_ident,
                le_latitude_deg,
                le_longitude_deg,
                le_elevation_ft,
                le_heading_deg_true,
                le_displaced_threshold_ft,
                he_ident,
                he_latitude_deg,
                he_longitude_deg,
                he_elevation_ft,
                he_heading_deg_true,
                he_displaced_threshold_ft,
            },
        )
    }
}

/// Builds the table of all runways from the text of `runways.csv`, each
/// runway under its identifier. The first row that fails stops the load.
pub fn get_runways_csv(content: &str) -> (r: Result<BTreeMap<Id, Runway>, DecodeError>)
    ensures
        load_outcome(r) == table_of::<Runway>(records_of(content@)),
        r matches Ok(table) ==> keyed_by_id(table@),
{
    load::<Runway>(content)
}

} // verus!
