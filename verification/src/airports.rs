//! Airports, and the vocabulary of airport types.

use crate::continent::{continent_cell, continent_field, Continent};
use crate::decimal::Decimal;
use crate::error::{located, rejected, DecodeError, DecodeFault, ErrorKind, FieldError, FieldFault};
use crate::fields::{
    boolean_cell, boolean_field, decimal_cell, decimal_field, feet_cell, feet_field, id_cell,
    id_field, keywords_cell, keywords_field, required, required_text, text_cell, text_field,
};
use crate::location::{ContainsLocation, Elevation, Latitude, LocationView, Longitude};
use crate::source::records_of;
use crate::table::{
    cell, cell_at, find_column, hash_id, keyed_by_id, load, load_outcome, locate, table_of, Cell,
    CellText, Column, Id, Record,
};
use crate::text::{chars_of, spells};
use std::cmp::Ordering;
use std::collections::BTreeMap;
use std::hash::{Hash, Hasher};
use vstd::prelude::*;
use vstd::std_specs::cmp::{PartialEqSpec, PartialOrdSpec};

verus! {

/// Possible types of airports.
#[derive(Clone, Copy, Debug, PartialEq, Eq, PartialOrd, Ord, Hash, Structural)]
pub enum AirportType {
    /// Small airport
    SmallAirport,
    /// Medium airport
    MediumAirport,
    /// Large airport
    LargeAirport,
    /// Heliport
    Heliport,
    /// Seaplane base
    SeaplaneBase,
    /// Closed airport, which older data call `closed`
    ClosedAirport,
    /// Balloon port, which the data call `balloonport`
    BalloonPort,
}

impl AirportType {
    /// The code that stands for an airport type.
    pub open spec fn code_of(self) -> Seq<char> {
        match self {
            AirportType::SmallAirport => "small_airport"@,
            AirportType::MediumAirport => "medium_airport"@,
            AirportType::LargeAirport => "large_airport"@,
            AirportType::Heliport => "heliport"@,
            AirportType::SeaplaneBase => "seaplane_base"@,
            AirportType::ClosedAirport => "closed_airport"@,
            AirportType::BalloonPort => "balloon_port"@,
        }
    }

    /// The airport type that a code stands for.
    pub open spec fn decoded(code: Seq<char>) -> Option<AirportType> {
        if code == "small_airport"@ {
            Some(AirportType::SmallAirport)
        } else if code == "medium_airport"@ {
            Some(AirportType::MediumAirport)
        } else if code == "large_airport"@ {
            Some(AirportType::LargeAirport)
        } else if code == "heliport"@ {
            Some(AirportType::Heliport)
        } else if code == "seaplane_base"@ {
            Some(AirportType::SeaplaneBase)
        } else if code == "closed_airport"@ || code == "closed"@ {
            Some(AirportType::ClosedAirport)
        } else if code == "balloon_port"@ || code == "balloonport"@ {
            Some(AirportType::BalloonPort)
        } else {
            None
        }
    }

    /// The code that stands for this airport type.
    pub fn code(&self) -> (code: &'static str)
        ensures
            code@ == self.code_of(),
    {
        match self {
            AirportType::SmallAirport => "small_airport",
            AirportType::MediumAirport => "medium_airport",
            AirportType::LargeAirport => "large_airport",
            AirportType::Heliport => "heliport",
            AirportType::SeaplaneBase => "seaplane_base",
            AirportType::ClosedAirport => "closed_airport",
            AirportType::BalloonPort => "balloon_port",
        }
    }

    /// Decodes the code of an airport type. The match is exact: case counts.
    pub fn from_code(code: &str) -> (r: Result<AirportType, FieldError>)
        ensures
            match r {
                Ok(v) => AirportType::decoded(code@) == Some(v),
                Err(e) => AirportType::decoded(code@) is None && e@ == rejected(
                    ErrorKind::UnknownCode,
                    code@,
                ),
            },
    {
        let c = chars_of(code);
        if spells(&c, "small_airport") {
            Ok(AirportType::SmallAirport)
        } else if spells(&c, "medium_airport") {
            Ok(AirportType::MediumAirport)
        } else if spells(&c, "large_airport") {
            Ok(AirportType::LargeAirport)
        } else if spells(&c, "heliport") {
            Ok(AirportType::Heliport)
        } else if spells(&c, "seaplane_base") {
            Ok(AirportType::SeaplaneBase)
        } else if spells(&c, "closed_airport") || spells(&c, "closed") {
            Ok(AirportType::ClosedAirport)
        } else if spells(&c, "balloon_port") || spells(&c, "balloonport") {
            Ok(AirportType::BalloonPort)
        } else {
            Err(FieldError::new(ErrorKind::UnknownCode, code))
        }
    }

    /// Every airport type is the one that its own code stands for.
    pub proof fn lemma_code_round_trip(v: AirportType)
        ensures
            AirportType::decoded(v.code_of()) == Some(v),
    {
        reveal_strlit("small_airport");
        reveal_strlit("medium_airport");
        reveal_strlit("large_airport");
        reveal_strlit("heliport");
        reveal_strlit("seaplane_base");
        reveal_strlit("closed_airport");
        reveal_strlit("closed");
        reveal_strlit("balloon_port");
        reveal_strlit("balloonport");
        assert("small_airport"@.len() == 13 && "small_airport"@[0] == 's' && "small_airport"@[1] == 'm');
        assert("medium_airport"@.len() == 14 && "medium_airport"@[0] == 'm');
        assert("large_airport"@.len() == 13 && "large_airport"@[0] == 'l');
        assert("heliport"@.len() == 8);
        assert("seaplane_base"@.len() == 13 && "seaplane_base"@[0] == 's' && "seaplane_base"@[1] == 'e');
        assert("closed_airport"@.len() == 14 && "closed_airport"@[0] == 'c');
        assert("closed"@.len() == 6);
        assert("balloon_port"@.len() == 12);
        assert("balloonport"@.len() == 11);
    }
}

/// What a cell of airport type codes holds.
pub open spec fn airport_type_field(cell: CellText) -> Result<AirportType, FieldFault> {
    match required(cell) {
        Err(e) => Err(e),
        Ok(s) => match AirportType::decoded(s) {
            Some(v) => Ok(v),
            None => Err(rejected(ErrorKind::UnknownCode, s)),
        },
    }
}

/// Decodes a cell of airport type codes.
pub fn airport_type_cell(cell: Cell) -> (r: Result<AirportType, FieldError>)
    ensures
        match r {
            Ok(v) => airport_type_field(cell@) == Ok::<AirportType, FieldFault>(v),
            Err(e) => airport_type_field(cell@) == Err::<AirportType, FieldFault>(e@),
        },
{
    AirportType::from_code(required_text(cell)?)
}

/// Represents a single airport.
#[derive(Clone, Debug)]
pub struct Airport {
    id: Id,
    ident: String,
    airport_type: AirportType,
    name: String,
    latitude_deg: Decimal,
    longitude_deg: Decimal,
    elevation_ft: Option<i32>,
    continent: Continent,
    iso_country: String,
    iso_region: String,
    municipality: String,
    scheduled_service: bool,
    gps_code: String,
    iata_code: String,
    local_code: String,
    home_link: String,
    wikipedia_link: String,
    keywords: Vec<String>,
}

/// What an [`Airport`] holds.
pub ghost struct AirportView {
    pub id: Id,
    pub ident: Seq<char>,
    pub airport_type: AirportType,
    pub name: Seq<char>,
    pub latitude_deg: Seq<char>,
    pub longitude_deg: Seq<char>,
    pub elevation_ft: Option<i32>,
    pub continent: Continent,
    pub iso_country: Seq<char>,
    pub iso_region: Seq<char>,
    pub municipality: Seq<char>,
    pub scheduled_service: bool,
    pub gps_code: Seq<char>,
    pub iata_code: Seq<char>,
    pub local_code: Seq<char>,
    pub home_link: Seq<char>,
    pub wikipedia_link: Seq<char>,
    pub keywords: Seq<Seq<char>>,
}

impl View for Airport {
    type V = AirportView;

    closed spec fn view(&self) -> AirportView {
        AirportView {
            id: self.id,
            ident: self.ident@,
            airport_type: self.airport_type,
            name: self.name@,
            latitude_deg: self.latitude_deg@,
            longitude_deg: self.longitude_deg@,
            elevation_ft: self.elevation_ft,
            continent: self.continent,
            iso_country: self.iso_country@,
            iso_region: self.iso_region@,
            municipality: self.municipality@,
            scheduled_service: self.scheduled_service,
            gps_code: self.gps_code@,
            iata_code: self.iata_code@,
            local_code: self.local_code@,
            home_link: self.home_link@,
            wikipedia_link: self.wikipedia_link@,
            keywords: self.keywords.deep_view(),
        }
    }
}

impl Airport {
    /// Internal integer identifier of the airport. It stays the same even when
    /// the airport code changes.
    pub fn id(&self) -> (v: Id)
        ensures
            v == self@.id,
    {
        self.id
    }

    /// The text identifier of the airport: the ICAO code where there is one,
    /// else a local airport code, else a code made of the country code, a dash
    /// and four digits.
    pub fn ident(&self) -> (v: &str)
        ensures
            v@ == self@.ident,
    {
        self.ident.as_str()
    }

    /// The type of the airport.
    pub fn airport_type(&self) -> (v: &AirportType)
        ensures
            *v == self@.airport_type,
    {
        &self.airport_type
    }

    /// The official airport name, including "Airport", "Airstrip", etc.
    pub fn name(&self) -> (v: &str)
        ensures
            v@ == self@.name,
    {
        self.name.as_str()
    }

    /// The airport latitude in decimal degrees (positive for north).
    pub fn latitude_deg(&self) -> (v: &Decimal)
        ensures
            v@ == self@.latitude_deg,
    {
        &self.latitude_deg
    }

    /// The airport longitude in decimal degrees (positive for east).
    pub fn longitude_deg(&self) -> (v: &Decimal)
        ensures
            v@ == self@.longitude_deg,
    {
        &self.longitude_deg
    }

    /// The airport elevation above mean sea level in feet (negative below it).
    pub fn elevation_ft(&self) -> (v: Option<i32>)
        ensures
            v == self@.elevation_ft,
    {
        self.elevation_ft
    }

    /// The continent where the airport is located.
    pub fn continent(&self) -> (v: &Continent)
        ensures
            *v == self@.continent,
    {
        &self.continent
    }

    /// The two-character code of the country where the airport is, or mostly
    /// is: the `code` of a country.
    pub fn iso_country(&self) -> (v: &str)
        ensures
            v@ == self@.iso_country,
    {
        self.iso_country.as_str()
    }

    /// The code of the administrative subdivision where the airport is: the
    /// `code` of a region.
    pub fn iso_region(&self) -> (v: &str)
        ensures
            v@ == self@.iso_region,
    {
        self.iso_region.as_str()
    }

    /// The primary municipality that the airport serves, which need not be the
    /// one where it lies.
    pub fn municipality(&self) -> (v: &str)
        ensures
            v@ == self@.municipality,
    {
        self.municipality.as_str()
    }

    /// Whether the airport currently has scheduled airline service.
    pub fn scheduled_service(&self) -> (v: bool)
        ensures
            v == self@.scheduled_service,
    {
        self.scheduled_service
    }

    /// The code that an aviation GPS database would normally use for the
    /// airport: the ICAO code where there is one.
    pub fn gps_code(&self) -> (v: &str)
        ensures
            v@ == self@.gps_code,
    {
        self.gps_code.as_str()
    }

    /// The three-letter IATA code of the airport, where it has one.
    pub fn iata_code(&self) -> (v: &str)
        ensures
            v@ == self@.iata_code,
    {
        self.iata_code.as_str()
    }

    /// The local country code of the airport, where it differs from the GPS and
    /// IATA codes.
    pub fn local_code(&self) -> (v: &str)
        ensures
            v@ == self@.local_code,
    {
        self.local_code.as_str()
    }

    /// URL of the official home page of the airport, where there is one.
    pub fn home_link(&self) -> (v: &str)
        ensures
            v@ == self@.home_link,
    {
        self.home_link.as_str()
    }

    /// URL of the page of the airport on Wikipedia, where there is one.
    pub fn wikipedia_link(&self) -> (v: &str)
        ensures
            v@ == self@.wikipedia_link,
    {
        self.wikipedia_link.as_str()
    }

    /// Extra keywords and phrases to assist with search, one item each.
    pub fn keywords(&self) -> (v: &Vec<String>)
        ensures
            v.deep_view() == self@.keywords,
    {
        &self.keywords
    }
}

/// Two airports are equal where their identifiers are.
impl PartialEq for Airport {
    fn eq(&self, other: &Self) -> (same: bool) {
        self.id == other.id
    }
}

impl Eq for Airport {
}

impl vstd::std_specs::cmp::PartialEqSpecImpl for Airport {
    open spec fn obeys_eq_spec() -> bool {
        true
    }

    open spec fn eq_spec(&self, other: &Self) -> bool {
        self@.id == other@.id
    }
}

/// Airports are ordered as their identifiers are.
impl PartialOrd for Airport {
    fn partial_cmp(&self, other: &Self) -> (order: Option<Ordering>) {
        if self.id < other.id {
            Some(Ordering::Less)
        } else if self.id == other.id {
            Some(Ordering::Equal)
        } else {
            Some(Ordering::Greater)
        }
    }
}

impl vstd::std_specs::cmp::PartialOrdSpecImpl for Airport {
    open spec fn obeys_partial_cmp_spec() -> bool {
        true
    }

    open spec fn partial_cmp_spec(&self, other: &Self) -> Option<Ordering> {
        if self@.id < other@.id {
            Some(Ordering::Less)
        } else if self@.id == other@.id {
            Some(Ordering::Equal)
        } else {
            Some(Ordering::Greater)
        }
    }
}

/// The hash of an airport is that of its identifier.
impl Hash for Airport {
    fn hash<H: Hasher>(&self, state: &mut H) {
        hash_id(self.id, state)
    }
}

/// Identity alone decides: two airports are equal exactly where their
/// identifiers are equal, and one comes before the other exactly where its
/// identifier is the smaller, whatever else they hold.
pub proof fn lemma_identity_decides(a: Airport, b: Airport)
    ensures
        a.eq_spec(&b) <==> a@.id == b@.id,
        a.partial_cmp_spec(&b) == Some(Ordering::Equal) <==> a@.id == b@.id,
        a.partial_cmp_spec(&b) == Some(Ordering::Less) <==> a@.id < b@.id,
        a.partial_cmp_spec(&b) == Some(Ordering::Greater) <==> a@.id > b@.id,
{
}

impl ContainsLocation for Airport {
    open spec fn location_of(&self) -> LocationView {
        LocationView {
            latitude_deg: Some(self@.latitude_deg),
            longitude_deg: Some(self@.longitude_deg),
            elevation_ft: self@.elevation_ft,
        }
    }

    fn latitude_deg(&self) -> (v: Latitude<'_>) {
        Some(&self.latitude_deg)
    }

    fn longitude_deg(&self) -> (v: Longitude<'_>) {
        Some(&self.longitude_deg)
    }

    fn elevation_ft(&self) -> (v: Elevation) {
        self.elevation_ft
    }
}

/// Where a header has the columns of an [`Airport`].
#[derive(Clone, Copy, Debug)]
pub struct AirportColumns {
    pub id: Column,
    pub ident: Column,
    pub airport_type: Column,
    pub name: Column,
    pub latitude_deg: Column,
    pub longitude_deg: Column,
    pub elevation_ft: Column,
    pub continent: Column,
    pub iso_country: Column,
    pub iso_region: Column,
    pub municipality: Column,
    pub scheduled_service: Column,
    pub gps_code: Column,
    pub iata_code: Column,
    pub local_code: Column,
    pub home_link: Column,
    pub wikipedia_link: Column,
    pub keywords: Column,
}

impl Record for Airport {
    type Columns = AirportColumns;

    open spec fn key_of(v: AirportView) -> Id {
        v.id
    }

    open spec fn columns(header: Seq<Seq<char>>) -> AirportColumns {
        AirportColumns {
            id: locate(header, "id"@),
            ident: locate(header, "ident"@),
            airport_type: locate(header, "type"@),
            name: locate(header, "name"@),
            latitude_deg: locate(header, "latitude_deg"@),
            longitude_deg: locate(header, "longitude_deg"@),
            elevation_ft: locate(header, "elevation_ft"@),
            continent: locate(header, "continent"@),
            iso_country: locate(header, "iso_country"@),
            iso_region: locate(header, "iso_region"@),
            municipality: locate(header, "municipality"@),
            scheduled_service: locate(header, "scheduled_service"@),
            gps_code: locate(header, "gps_code"@),
            iata_code: locate(header, "iata_code"@),
            local_code: locate(header, "local_code"@),
            home_link: locate(header, "home_link"@),
            wikipedia_link: locate(header, "wikipedia_link"@),
            keywords: locate(header, "keywords"@),
        }
    }

    open spec fn decoded(columns: AirportColumns, fields: Seq<Seq<char>>, row: nat) -> Result<
        AirportView,
        DecodeFault,
    > {
        let id = id_field(cell_at(columns.id, fields));
        let ident = text_field(cell_at(columns.ident, fields));
        let airport_type = airport_type_field(cell_at(columns.airport_type, fields));
        let name = text_field(cell_at(columns.name, fields));
        let latitude_deg = decimal_field(cell_at(columns.latitude_deg, fields));
        let longitude_deg = decimal_field(cell_at(columns.longitude_deg, fields));
        let elevation_ft = feet_field(cell_at(columns.elevation_ft, fields));
        let continent = continent_field(cell_at(columns.continent, fields));
        let iso_country = text_field(cell_at(columns.iso_country, fields));
        let iso_region = text_field(cell_at(columns.iso_region, fields));
        let municipality = text_field(cell_at(columns.municipality, fields));
        let scheduled_service = boolean_field(cell_at(columns.scheduled_service, fields));
        let gps_code = text_field(cell_at(columns.gps_code, fields));
        let iata_code = text_field(cell_at(columns.iata_code, fields));
        let local_code = text_field(cell_at(columns.local_code, fields));
        let home_link = text_field(cell_at(columns.home_link, fields));
        let wikipedia_link = text_field(cell_at(columns.wikipedia_link, fields));
        let keywords = keywords_field(cell_at(columns.keywords, fields));
        if id is Err {
            Err(located(row, "id"@, id->Err_0))
        } else if ident is Err {
            Err(located(row, "ident"@, ident->Err_0))
        } else if airport_type is Err {
            Err(located(row, "type"@, airport_type->Err_0))
        } else if name is Err {
            Err(located(row, "name"@, name->Err_0))
        } else if latitude_deg is Err {
            Err(located(row, "latitude_deg"@, latitude_deg->Err_0))
        } else if longitude_deg is Err {
            Err(located(row, "longitude_deg"@, longitude_deg->Err_0))
        } else if elevation_ft is Err {
            Err(located(row, "elevation_ft"@, elevation_ft->Err_0))
        } else if continent is Err {
            Err(located(row, "continent"@, continent->Err_0))
        } else if iso_country is Err {
            Err(located(row, "iso_country"@, iso_country->Err_0))
        } else if iso_region is Err {
            Err(located(row, "iso_region"@, iso_region->Err_0))
        } else if municipality is Err {
            Err(located(row, "municipality"@, municipality->Err_0))
        } else if scheduled_service is Err {
            Err(located(row, "scheduled_service"@, scheduled_service->Err_0))
        } else if gps_code is Err {
            Err(located(row, "gps_code"@, gps_code->Err_0))
        } else if iata_code is Err {
            Err(located(row, "iata_code"@, iata_code->Err_0))
        } else if local_code is Err {
            Err(located(row, "local_code"@, local_code->Err_0))
        } else if home_link is Err {
            Err(located(row, "home_link"@, home_link->Err_0))
        } else if wikipedia_link is Err {
            Err(located(row, "wikipedia_link"@, wikipedia_link->Err_0))
        } else if keywords is Err {
            Err(located(row, "keywords"@, keywords->Err_0))
        } else {
            Ok(
                AirportView {
                    id: id->Ok_0,
                    ident: ident->Ok_0,
                    airport_type: airport_type->Ok_0,
                    name: name->Ok_0,
                    latitude_deg: latitude_deg->Ok_0,
                    longitude_deg: longitude_deg->Ok_0,
                    elevation_ft: elevation_ft->Ok_0,
                    continent: continent->Ok_0,
                    iso_country: iso_country->Ok_0,
                    iso_region: iso_region->Ok_0,
                    municipality: municipality->Ok_0,
                    scheduled_service: scheduled_service->Ok_0,
                    gps_code: gps_code->Ok_0,
                    iata_code: iata_code->Ok_0,
                    local_code: local_code->Ok_0,
                    home_link: home_link->Ok_0,
                    wikipedia_link: wikipedia_link->Ok_0,
                    keywords: keywords->Ok_0,
                },
            )
        }
    }

    fn key(&self) -> (k: Id) {
        self.id
    }

    fn find_columns(header: &csv::StringRecord) -> (columns: AirportColumns) {
        AirportColumns {
            id: find_column(header, "id"),
            ident: find_column(header, "ident"),
            airport_type: find_column(header, "type"),
            name: find_column(header, "name"),
            latitude_deg: find_column(header, "latitude_deg"),
            longitude_deg: find_column(header, "longitude_deg"),
            elevation_ft: find_column(header, "elevation_ft"),
            continent: find_column(header, "continent"),
            iso_country: find_column(header, "iso_country"),
            iso_region: find_column(header, "iso_region"),
            municipality: find_column(header, "municipality"),
            scheduled_service: find_column(header, "scheduled_service"),
            gps_code: find_column(header, "gps_code"),
            iata_code: find_column(header, "iata_code"),
            local_code: find_column(header, "local_code"),
            home_link: find_column(header, "home_link"),
            wikipedia_link: find_column(header, "wikipedia_link"),
            keywords: find_column(header, "keywords"),
        }
    }

    fn decode(columns: &AirportColumns, row: &csv::StringRecord, number: usize) -> (r: Result<
        Airport,
        DecodeError,
    >) {
        let id = match id_cell(cell(columns.id, row)) {
            Ok(v) => v,
            Err(e) => {
                return Err(DecodeError::at(number, "id", e));
            },
        };
        let ident = match text_cell(cell(columns.ident, row)) {
            Ok(v) => v,
            Err(e) => {
                return Err(DecodeError::at(number, "ident", e));
            },
        };
        let airport_type = match airport_type_cell(cell(columns.airport_type, row)) {
            Ok(v) => v,
            Err(e) => {
                return Err(DecodeError::at(number, "type", e));
            },
        };
        let name = match text_cell(cell(columns.name, row)) {
            Ok(v) => v,
            Err(e) => {
                return Err(DecodeError::at(number, "name", e));
            },
        };
        let latitude_deg = match decimal_cell(cell(columns.latitude_deg, row)) {
            Ok(v) => v,
            Err(e) => {
                return Err(DecodeError::at(number, "latitude_deg", e));
            },
        };
        let longitude_deg = match decimal_cell(cell(columns.longitude_deg, row)) {
            Ok(v) => v,
            Err(e) => {
                return Err(DecodeError::at(number, "longitude_deg", e));
            },
        };
        let elevation_ft = match feet_cell(cell(columns.elevation_ft, row)) {
            Ok(v) => v,
            Err(e) => {
                return Err(DecodeError::at(number, "elevation_ft", e));
            },
        };
        let continent = match continent_cell(cell(columns.continent, row)) {
            Ok(v) => v,
            Err(e) => {
                return Err(DecodeError::at(number, "continent", e));
            },
        };
        let iso_country = match text_cell(cell(columns.iso_country, row)) {
            Ok(v) => v,
            Err(e) => {
                return Err(DecodeError::at(number, "iso_country", e));
            },
        };
        let iso_region = match text_cell(cell(columns.iso_region, row)) {
            Ok(v) => v,
            Err(e) => {
                return Err(DecodeError::at(number, "iso_region", e));
            },
        };
        let municipality = match text_cell(cell(columns.municipality, row)) {
            Ok(v) => v,
            Err(e) => {
                return Err(DecodeError::at(number, "municipality", e));
            },
        };
        let scheduled_service = match boolean_cell(cell(columns.scheduled_service, row)) {
            Ok(v) => v,
            Err(e) => {
                return Err(DecodeError::at(number, "scheduled_service", e));
            },
        };
        let gps_code = match text_cell(cell(columns.gps_code, row)) {
            Ok(v) => v,
            Err(e) => {
                return Err(DecodeError::at(number, "gps_code", e));
            },
        };
        let iata_code = match text_cell(cell(columns.iata_code, row)) {
            Ok(v) => v,
            Err(e) => {
                return Err(DecodeError::at(number, "iata_code", e));
            },
        };
        let local_code = match text_cell(cell(columns.local_code, row)) {
            Ok(v) => v,
            Err(e) => {
                return Err(DecodeError::at(number, "local_code", e));
            },
        };
        let home_link = match text_cell(cell(columns.home_link, row)) {
            Ok(v) => v,
            Err(e) => {
                return Err(DecodeError::at(number, "home_link", e));
            },
        };
        let wikipedia_link = match text_cell(cell(columns.wikipedia_link, row)) {
            Ok(v) => v,
            Err(e) => {
                return Err(DecodeError::at(number, "wikipedia_link", e));
            },
        };
        let keywords = match keywords_cell(cell(columns.keywords, row)) {
            Ok(v) => v,
            Err(e) => {
                return Err(DecodeError::at(number, "keywords", e));
            },
        };
        Ok(
            Airport {
                id,
                ident,
                airport_type,
                name,
                latitude_deg,
                longitude_deg,
                elevation_ft,
                continent,
                iso_country,
                iso_region,
                municipality,
                scheduled_service,
                gps_code,
                iata_code,
                local_code,
                home_link,
                wikipedia_link,
                keywords,
            },
        )
    }
}

/// A row whose `type` cell is no airport type does not decode: it is
/// rejected, never skipped or given a type of its own.
pub proof fn lemma_unknown_type_is_rejected(
    columns: AirportColumns,
    fields: Seq<Seq<char>>,
    row: nat,
)
    requires
        airport_type_field(cell_at(columns.airport_type, fields)) is Err,
    ensures
        Airport::decoded(columns, fields, row) is Err,
{
}

/// Builds the table of all airports from the text of `airports.csv`, each
/// airport under its identifier. The first row that fails stops the load.
pub fn get_airports_csv(content: &str) -> (r: Result<BTreeMap<Id, Airport>, DecodeError>)
    ensures
        load_outcome(r) == table_of::<Airport>(records_of(content@)),
        r matches Ok(table) ==> keyed_by_id(table@),
{
    load::<Airport>(content)
}

} // verus!
