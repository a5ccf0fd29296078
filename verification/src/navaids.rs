//! Radio navigation aids, and the vocabularies of their types, usages and power levels.

use crate::decimal::{decimal_ref_view, decimal_view, Decimal};
use crate::error::{located, rejected, DecodeError, DecodeFault, ErrorKind, FieldError, FieldFault};
use crate::fields::{
    degrees_cell, degrees_field, feet_cell, feet_field, id_cell, id_field, optional, optional_text,
    required, required_text, text_cell, text_field,
};
use crate::location::{ContainsLocation, Elevation, Latitude, LocationView, Longitude};
use crate::source::records_of;
use crate::table::{
    cell, cell_at, find_column, hash_id, keyed_by_id, load, load_outcome, locate, table_of, Cell,
    CellText, Column, Id, Record,
};
use crate::text::{chars_of, spells};
use std::cmp::Ordering;
use std::collections::BTreeMap;
use std::hash::{Hash, Hasher};
use vstd::prelude::*;
use vstd::std_specs::cmp::{PartialEqSpec, PartialOrdSpec};

verus! {

/// Possible types of navaids.
#[derive(Clone, Copy, Debug, PartialEq, Eq, PartialOrd, Ord, Hash, Structural)]
pub enum NavaidType {
    /// Distance-measuring equipment
    Dme,
    /// Non-directional beacon
    Ndb,
    /// Non-directional beacon with distance-measuring equipment
    NdbDme,
    /// Tactical air navigation system
    Tacan,
    /// VHF omnidirectional range
    Vor,
    /// VHF omnidirectional range with distance-measuring equipment
    VorDme,
    /// VHF omnidirectional range together with a TACAN
    Vortac,
}

impl NavaidType {
    /// The code that stands for a navaid type.
    pub open spec fn code_of(self) -> Seq<char> {
        match self {
            NavaidType::Dme => "DME"@,
            NavaidType::Ndb => "NDB"@,
            NavaidType::NdbDme => "NDB-DME"@,
            NavaidType::Tacan => "TACAN"@,
            NavaidType::Vor => "VOR"@,
            NavaidType::VorDme => "VOR-DME"@,
            NavaidType::Vortac => "VORTAC"@,
        }
    }

    /// The navaid type that a code stands for.
    pub open spec fn decoded(code: Seq<char>) -> Option<NavaidType> {
        if code == "DME"@ {
            Some(NavaidType::Dme)
        } else if code == "NDB"@ {
            Some(NavaidType::Ndb)
        } else if code == "NDB-DME"@ {
            Some(NavaidType::NdbDme)
        } else if code == "TACAN"@ {
            Some(NavaidType::Tacan)
        } else if code == "VOR"@ {
            Some(NavaidType::Vor)
        } else if code == "VOR-DME"@ {
            Some(NavaidType::VorDme)
        } else if code == "VORTAC"@ {
            Some(NavaidType::Vortac)
        } else {
            None
        }
    }

    /// The code that stands for this navaid type.
    pub fn code(&self) -> (code: &'static str)
        ensures
            code@ == self.code_of(),
    {
        match self {
            NavaidType::Dme => "DME",
            NavaidType::Ndb => "NDB",
            NavaidType::NdbDme => "NDB-DME",
            NavaidType::Tacan => "TACAN",
            NavaidType::Vor => "VOR",
            NavaidType::VorDme => "VOR-DME",
            NavaidType::Vortac => "VORTAC",
        }
    }

    /// Decodes the code of a navaid type. The match is exact: case counts.
    pub fn from_code(code: &str) -> (r: Result<NavaidType, FieldError>)
        ensures
            match r {
                Ok(v) => NavaidType::decoded(code@) == Some(v),
                Err(e) => NavaidType::decoded(code@) is None && e@ == rejected(
                    ErrorKind::UnknownCode,
                    code@,
                ),
            },
    {
        let c = chars_of(code);
        if spells(&c, "DME") {
            Ok(NavaidType::Dme)
        } else if spells(&c, "NDB") {
            Ok(NavaidType::Ndb)
        } else if spells(&c, "NDB-DME") {
            Ok(NavaidType::NdbDme)
        } else if spells(&c, "TACAN") {
            Ok(NavaidType::Tacan)
        } else if spells(&c, "VOR") {
            Ok(NavaidType::Vor)
        } else if spells(&c, "VOR-DME") {
            Ok(NavaidType::VorDme)
        } else if spells(&c, "VORTAC") {
            Ok(NavaidType::Vortac)
        } else {
            Err(FieldError::new(ErrorKind::UnknownCode, code))
        }
    }

    /// Every navaid type is the one that its own code stands for.
    pub proof fn lemma_code_round_trip(v: NavaidType)
        ensures
            NavaidType::decoded(v.code_of()) == Some(v),
    {
        reveal_strlit("DME");
        reveal_strlit("NDB");
        reveal_strlit("NDB-DME");
        reveal_strlit("TACAN");
        reveal_strlit("VOR");
        reveal_strlit("VOR-DME");
        reveal_strlit("VORTAC");
        assert("DME"@.len() == 3 && "DME"@[0] == 'D');
        assert("NDB"@.len() == 3 && "NDB"@[0] == 'N');
        assert("NDB-DME"@.len() == 7 && "NDB-DME"@[0] == 'N');
        assert("TACAN"@.len() == 5);
        assert("VOR"@.len() == 3 && "VOR"@[0] == 'V');
        assert("VOR-DME"@.len() == 7 && "VOR-DME"@[0] == 'V');
        assert("VORTAC"@.len() == 6);
    }
}

/// What a cell of navaid type codes holds.
pub open spec fn navaid_type_field(cell: CellText) -> Result<NavaidType, FieldFault> {
    match required(cell) {
        Err(e) => Err(e),
        Ok(s) => match NavaidType::decoded(s) {
            Some(v) => Ok(v),
            None => Err(rejected(ErrorKind::UnknownCode, s)),
        },
    }
}

/// Decodes a cell of navaid type codes.
pub fn navaid_type_cell(cell: Cell) -> (r: Result<NavaidType, FieldError>)
    ensures
        match r {
            Ok(v) => navaid_type_field(cell@) == Ok::<NavaidType, FieldFault>(v),
            Err(e) => navaid_type_field(cell@) == Err::<NavaidType, FieldFault>(e@),
        },
{
    NavaidType::from_code(required_text(cell)?)
}

/// Possible usage types of navaids.
#[derive(Clone, Copy, Debug, PartialEq, Eq, PartialOrd, Ord, Hash, Structural)]
pub enum UsageType {
    /// High-altitude airways, at or above flight level 180
    Hi,
    /// Low-altitude airways
    Lo,
    /// High- and low-altitude airways
    Both,
    /// Terminal-area navigation only, which some data call `TERMINAL`
    Term,
    /// Non-GPS area navigation
    Rnav,
}

impl UsageType {
    /// The code that stands for a usage type.
    pub open spec fn code_of(self) -> Seq<char> {
        match self {
            UsageType::Hi => "HI"@,
            UsageType::Lo => "LO"@,
            UsageType::Both => "BOTH"@,
            UsageType::Term => "TERM"@,
            UsageType::Rnav => "RNAV"@,
        }
    }

    /// The usage type that a code stands for.
    pub open spec fn decoded(code: Seq<char>) -> Option<UsageType> {
        if code == "HI"@ {
            Some(UsageType::Hi)
        } else if code == "LO"@ {
            Some(UsageType::Lo)
        } else if code == "BOTH"@ {
            Some(UsageType::Both)
        } else if code == "TERM"@ || code == "TERMINAL"@ {
            Some(UsageType::Term)
        } else if code == "RNAV"@ {
            Some(UsageType::Rnav)
        } else {
            None
        }
    }

    /// The code that stands for this usage type.
    pub fn code(&self) -> (code: &'static str)
        ensures
            code@ == self.code_of(),
    {
        match self {
            UsageType::Hi => "HI",
            UsageType::Lo => "LO",
            UsageType::Both => "BOTH",
            UsageType::Term => "TERM",
            UsageType::Rnav => "RNAV",
        }
    }

    /// Decodes the code of a usage type. The match is exact: case counts.
    pub fn from_code(code: &str) -> (r: Result<UsageType, FieldError>)
        ensures
            match r {
                Ok(v) => UsageType::decoded(code@) == Some(v),
                Err(e) => UsageType::decoded(code@) is None && e@ == rejected(
                    ErrorKind::UnknownCode,
                    code@,
                ),
            },
    {
        let c = chars_of(code);
        if spells(&c, "HI") {
            Ok(UsageType::Hi)
        } else if spells(&c, "LO") {
            Ok(UsageType::Lo)
        } else if spells(&c, "BOTH") {
            Ok(UsageType::Both)
        } else if spells(&c, "TERM") || spells(&c, "TERMINAL") {
            Ok(UsageType::Term)
        } else if spells(&c, "RNAV") {
            Ok(UsageType::Rnav)
        } else {
            Err(FieldError::new(ErrorKind::UnknownCode, code))
        }
    }

    /// Every usage type is the one that its own code stands for.
    pub proof fn lemma_code_round_trip(v: UsageType)
        ensures
            UsageType::decoded(v.code_of()) == Some(v),
    {
        reveal_strlit("HI");
        reveal_strlit("LO");
        reveal_strlit("BOTH");
        reveal_strlit("TERM");
        reveal_strlit("TERMINAL");
        reveal_strlit("RNAV");
        assert("HI"@.len() == 2 && "HI"@[0] == 'H');
        assert("LO"@.len() == 2 && "LO"@[0] == 'L');
        assert("BOTH"@.len() == 4 && "BOTH"@[0] == 'B');
        assert("TERM"@.len() == 4 && "TERM"@[0] == 'T');
        assert("TERMINAL"@.len() == 8);
        assert("RNAV"@.len() == 4 && "RNAV"@[0] == 'R');
    }
}

/// What a cell holds that may give a usage type code.
pub open spec fn usage_type_field(cell: CellText) -> Result<Option<UsageType>, FieldFault> {
    match optional(cell) {
        Err(e) => Err(e),
        Ok(None) => Ok(None),
        Ok(Some(s)) => match UsageType::decoded(s) {
            Some(v) => Ok(Some(v)),
            None => Err(rejected(ErrorKind::UnknownCode, s)),
        },
    }
}

/// Decodes a cell that may give a usage type code.
pub fn usage_type_cell(cell: Cell) -> (r: Result<Option<UsageType>, FieldError>)
    ensures
        match r {
            Ok(v) => usage_type_field(cell@) == Ok::<Option<UsageType>, FieldFault>(v),
            Err(e) => usage_type_field(cell@) == Err::<Option<UsageType>, FieldFault>(e@),
        },
{
    match optional_text(cell)? {
        Some(s) => Ok(Some(UsageType::from_code(s)?)),
        None => Ok(None),
    }
}

/// Possible power levels of navaids.
#[derive(Clone, Copy, Debug, PartialEq, Eq, PartialOrd, Ord, Hash, Structural)]
pub enum NavaidPower {
    Low,
    Medium,
    High,
    Unknown,
}

impl NavaidPower {
    /// The code that stands for a power level.
    pub open spec fn code_of(self) -> Seq<char> {
        match self {
            NavaidPower::Low => "LOW"@,
            NavaidPower::Medium => "MEDIUM"@,
            NavaidPower::High => "HIGH"@,
            NavaidPower::Unknown => "UNKNOWN"@,
        }
    }

    /// The power level that a code stands for.
    pub open spec fn decoded(code: Seq<char>) -> Option<NavaidPower> {
        if code == "LOW"@ {
            Some(NavaidPower::Low)
        } else if code == "MEDIUM"@ {
            Some(NavaidPower::Medium)
        } else if code == "HIGH"@ {
            Some(NavaidPower::High)
        } else if code == "UNKNOWN"@ {
            Some(NavaidPower::Unknown)
        } else {
            None
        }
    }

    /// The code that stands for this power level.
    pub fn code(&self) -> (code: &'static str)
        ensures
            code@ == self.code_of(),
    {
        match self {
            NavaidPower::Low => "LOW",
            NavaidPower::Medium => "MEDIUM",
            NavaidPower::High => "HIGH",
            NavaidPower::Unknown => "UNKNOWN",
        }
    }

    /// Decodes the code of a power level. The match is exact: case counts.
    pub fn from_code(code: &str) -> (r: Result<NavaidPower, FieldError>)
        ensures
            match r {
                Ok(v) => NavaidPower::decoded(code@) == Some(v),
                Err(e) => NavaidPower::decoded(code@) is None && e@ == rejected(
                    ErrorKind::UnknownCode,
                    code@,
                ),
            },
    {
        let c = chars_of(code);
        if spells(&c, "LOW") {
            Ok(NavaidPower::Low)
        } else if spells(&c, "MEDIUM") {
            Ok(NavaidPower::Medium)
        } else if spells(&c, "HIGH") {
            Ok(NavaidPower::High)
        } else if spells(&c, "UNKNOWN") {
            Ok(NavaidPower::Unknown)
        } else {
            Err(FieldError::new(ErrorKind::UnknownCode, code))
        }
    }

    /// Every power level is the one that its own code stands for.
    pub proof fn lemma_code_round_trip(v: NavaidPower)
        ensures
            NavaidPower::decoded(v.code_of()) == Some(v),
    {
        reveal_strlit("LOW");
        reveal_strlit("MEDIUM");
        reveal_strlit("HIGH");
        reveal_strlit("UNKNOWN");
        assert("LOW"@.len() == 3);
        assert("MEDIUM"@.len() == 6);
        assert("HIGH"@.len() == 4);
        assert("UNKNOWN"@.len() == 7);
    }
}

/// What a cell holds that may give a power level code.
pub open spec fn power_field(cell: CellText) -> Result<Option<NavaidPower>, FieldFault> {
    match optional(cell) {
        Err(e) => Err(e),
        Ok(None) => Ok(None),
        Ok(Some(s)) => match NavaidPower::decoded(s) {
            Some(v) => Ok(Some(v)),
            None => Err(rejected(ErrorKind::UnknownCode, s)),
        },
    }
}

/// Decodes a cell that may give a power level code.
pub fn power_cell(cell: Cell) -> (r: Result<Option<NavaidPower>, FieldError>)
    ensures
        match r {
            Ok(v) => power_field(cell@) == Ok::<Option<NavaidPower>, FieldFault>(v),
            Err(e) => power_field(cell@) == Err::<Option<NavaidPower>, FieldFault>(e@),
        },
{
    match optional_text(cell)? {
        Some(s) => Ok(Some(NavaidPower::from_code(s)?)),
        None => Ok(None),
    }
}

/// Represents a single radio navigation aid.
#[derive(Clone, Debug)]
pub struct Navaid {
    id: Id,
    filename: String,
    ident: String,
    name: String,
    navaid_type: NavaidType,
    frequency_khz: String,
    latitude_deg: Option<Decimal>,
    longitude_deg: Option<Decimal>,
    elevation_ft: Option<i32>,
    iso_country: String,
    dme_frequency_khz: String,
    dme_channel: String,
    dme_latitude_deg: Option<Decimal>,
    dme_longitude_deg: Option<Decimal>,
    dme_elevation_ft: Option<i32>,
    slaved_variation_deg: Option<Decimal>,
    magnetic_variation_deg: Option<Decimal>,
    usage_type: Option<UsageType>,
    power: Option<NavaidPower>,
    associated_airport: String,
}

/// What a [`Navaid`] holds.
pub ghost struct NavaidView {
    pub id: Id,
    pub filename: Seq<char>,
    pub ident: Seq<char>,
    pub name: Seq<char>,
    pub navaid_type: NavaidType,
    pub frequency_khz: Seq<char>,
    pub latitude_deg: Option<Seq<char>>,
    pub longitude_deg: Option<Seq<char>>,
    pub elevation_ft: Option<i32>,
    pub iso_country: Seq<char>,
    pub dme_frequency_khz: Seq<char>,
    pub dme_channel: Seq<char>,
    pub dme_latitude_deg: Option<Seq<char>>,
    pub dme_longitude_deg: Option<Seq<char>>,
    pub dme_elevation_ft: Option<i32>,
    pub slaved_variation_deg: Option<Seq<char>>,
    pub magnetic_variation_deg: Option<Seq<char>>,
    pub usage_type: Option<UsageType>,
    pub power: Option<NavaidPower>,
    pub associated_airport: Seq<char>,
}

impl View for Navaid {
    type V = NavaidView;

    closed spec fn view(&self) -> NavaidView {
        NavaidView {
            id: self.id,
            filename: self.filename@,
            ident: self.ident@,
            name: self.name@,
            navaid_type: self.navaid_type,
            frequency_khz: self.frequency_khz@,
            latitude_deg: decimal_view(self.latitude_deg),
            longitude_deg: decimal_view(self.longitude_deg),
            elevation_ft: self.elevation_ft,
            iso_country: self.iso_country@,
            dme_frequency_khz: self.dme_frequency_khz@,
            dme_channel: self.dme_channel@,
            dme_latitude_deg: decimal_view(self.dme_latitude_deg),
            dme_longitude_deg: decimal_view(self.dme_longitude_deg),
            dme_elevation_ft: self.dme_elevation_ft,
            slaved_variation_deg: decimal_view(self.slaved_variation_deg),
            magnetic_variation_deg: decimal_view(self.magnetic_variation_deg),
            usage_type: self.usage_type,
            power: self.power,
            associated_airport: self.associated_airport@,
        }
    }
}

impl Navaid {
    /// Internal integer identifier of the navaid. It stays the same even when
    /// the identifier or the frequency changes.
    pub fn id(&self) -> (v: Id)
        ensures
            v == self@.id,
    {
        self.id
    }

    /// A unique text identifier made of the name and the country of the navaid.
    pub fn filename(&self) -> (v: &str)
        ensures
            v@ == self@.filename,
    {
        self.filename.as_str()
    }

    /// The identifier of one to three characters that the navaid transmits.
    pub fn ident(&self) -> (v: &str)
        ensures
            v@ == self@.ident,
    {
        self.ident.as_str()
    }

    /// The name of the navaid, without its type.
    pub fn name(&self) -> (v: &str)
        ensures
            v@ == self@.name,
    {
        self.name.as_str()
    }

    /// The type of the navaid.
    pub fn navaid_type(&self) -> (v: &NavaidType)
        ensures
            *v == self@.navaid_type,
    {
        &self.navaid_type
    }

    /// The frequency of the navaid in kilohertz, as text.
    pub fn frequency_khz(&self) -> (v: &str)
        ensures
            v@ == self@.frequency_khz,
    {
        self.frequency_khz.as_str()
    }

    /// The latitude of the navaid in decimal degrees (negative for south),
    /// where it is known.
    pub fn latitude_deg(&self) -> (v: Option<&Decimal>)
        ensures
            decimal_ref_view(v) == self@.latitude_deg,
    {
        self.latitude_deg.as_ref()
    }

    /// The longitude of the navaid in decimal degrees (negative for west),
    /// where it is known.
    pub fn longitude_deg(&self) -> (v: Option<&Decimal>)
        ensures
            decimal_ref_view(v) == self@.longitude_deg,
    {
        self.longitude_deg.as_ref()
    }

    /// The elevation of the navaid above mean sea level in feet, where it is
    /// known.
    pub fn elevation_ft(&self) -> (v: Option<i32>)
        ensures
            v == self@.elevation_ft,
    {
        self.elevation_ft
    }

    /// The two-character code of the country that operates the navaid: the
    /// `code` of a country.
    pub fn iso_country(&self) -> (v: &str)
        ensures
            v@ == self@.iso_country,
    {
        self.iso_country.as_str()
    }

    /// The paired VHF frequency of the DME (or TACAN) in kilohertz, as text.
    pub fn dme_frequency_khz(&self) -> (v: &str)
        ensures
            v@ == self@.dme_frequency_khz,
    {
        self.dme_frequency_khz.as_str()
    }

    /// The DME channel, another way to tune distance-measuring equipment.
    pub fn dme_channel(&self) -> (v: &str)
        ensures
            v@ == self@.dme_channel,
    {
        self.dme_channel.as_str()
    }

    /// The latitude of the associated DME in decimal degrees. Where it is
    /// absent, that of the navaid is meant.
    pub fn dme_latitude_deg(&self) -> (v: Option<&Decimal>)
        ensures
            decimal_ref_view(v) == self@.dme_latitude_deg,
    {
        self.dme_latitude_deg.as_ref()
    }

    /// The longitude of the associated DME in decimal degrees. Where it is
    /// absent, that of the navaid is meant.
    pub fn dme_longitude_deg(&self) -> (v: Option<&Decimal>)
        ensures
            decimal_ref_view(v) == self@.dme_longitude_deg,
    {
        self.dme_longitude_deg.as_ref()
    }

    /// The elevation of the associated DME above mean sea level in feet. Where
    /// it is absent, that of the navaid is meant.
    pub fn dme_elevation_ft(&self) -> (v: Option<i32>)
        ensures
            v == self@.dme_elevation_ft,
    {
        self.dme_elevation_ft
    }

    /// The magnetic variation built into the radials of a VOR, VOR-DME or
    /// TACAN, in degrees: positive to the east, negative to the west.
    pub fn slaved_variation_deg(&self) -> (v: Option<&Decimal>)
        ensures
            decimal_ref_view(v) == self@.slaved_variation_deg,
    {
        self.slaved_variation_deg.as_ref()
    }

    /// The actual magnetic variation at the place of the navaid, in degrees:
    /// positive to the east, negative to the west.
    pub fn magnetic_variation_deg(&self) -> (v: Option<&Decimal>)
        ensures
            decimal_ref_view(v) == self@.magnetic_variation_deg,
    {
        self.magnetic_variation_deg.as_ref()
    }

    /// The primary function of the navaid in the airspace system, where it is
    /// known.
    pub fn usage_type(&self) -> (v: Option<&UsageType>)
        ensures
            match v {
                Some(u) => self@.usage_type == Some(*u),
                None => self@.usage_type is None,
            },
    {
        self.usage_type.as_ref()
    }

    /// The power-output level of the navaid, where it is known.
    pub fn power(&self) -> (v: Option<&NavaidPower>)
        ensures
            match v {
                Some(p) => self@.power == Some(*p),
                None => self@.power is None,
            },
    {
        self.power.as_ref()
    }

    /// The identifier of the airport that the navaid belongs to: the `ident` of
    /// an airport.
    pub fn associated_airport(&self) -> (v: &str)
        ensures
            v@ == self@.associated_airport,
    {
        self.associated_airport.as_str()
    }
}

/// Two navaids are equal where their identifiers are.
impl PartialEq for Navaid {
    fn eq(&self, other: &Self) -> (same: bool) {
        self.id == other.id
    }
}

impl Eq for Navaid {
}

impl vstd::std_specs::cmp::PartialEqSpecImpl for Navaid {
    open spec fn obeys_eq_spec() -> bool {
        true
    }

    open spec fn eq_spec(&self, other: &Self) -> bool {
        self@.id == other@.id
    }
}

/// Navaids are ordered as their identifiers are.
impl PartialOrd for Navaid {
    fn partial_cmp(&self, other: &Self) -> (order: Option<Ordering>) {
        if self.id < other.id {
            Some(Ordering::Less)
        } else if self.id == other.id {
            Some(Ordering::Equal)
        } else {
            Some(Ordering::Greater)
        }
    }
}

impl vstd::std_specs::cmp::PartialOrdSpecImpl for Navaid {
    open spec fn obeys_partial_cmp_spec() -> bool {
        true
    }

    open spec fn partial_cmp_spec(&self, other: &Self) -> Option<Ordering> {
        if self@.id < other@.id {
            Some(Ordering::Less)
        } else if self@.id == other@.id {
            Some(Ordering::Equal)
        } else {
            Some(Ordering::Greater)
        }
    }
}

/// The hash of a navaid is that of its identifier.
impl Hash for Navaid {
    fn hash<H: Hasher>(&self, state: &mut H) {
        hash_id(self.id, state)
    }
}

/// Identity alone decides: two navaids are equal exactly where their
/// identifiers are equal, and one comes before the other exactly where its
/// identifier is the smaller, whatever else they hold.
pub proof fn lemma_identity_decides(a: Navaid, b: Navaid)
    ensures
        a.eq_spec(&b) <==> a@.id == b@.id,
        a.partial_cmp_spec(&b) == Some(Ordering::Equal) <==> a@.id == b@.id,
        a.partial_cmp_spec(&b) == Some(Ordering::Less) <==> a@.id < b@.id,
        a.partial_cmp_spec(&b) == Some(Ordering::Greater) <==> a@.id > b@.id,
{
}

impl ContainsLocation for Navaid {
    open spec fn location_of(&self) -> LocationView {
        LocationView {
            latitude_deg: self@.latitude_deg,
            longitude_deg: self@.longitude_deg,
            elevation_ft: self@.elevation_ft,
        }
    }

    fn latitude_deg(&self) -> (v: Latitude<'_>) {
        self.latitude_deg.as_ref()
    }

    fn longitude_deg(&self) -> (v: Longitude<'_>) {
        self.longitude_deg.as_ref()
    }

    fn elevation_ft(&self) -> (v: Elevation) {
        self.elevation_ft
    }
}

/// Where a header has the columns of a [`Navaid`].
#[derive(Clone, Copy, Debug)]
pub struct NavaidColumns {
    pub id: Column,
    pub filename: Column,
    pub ident: Column,
    pub name: Column,
    pub navaid_type: Column,
    pub frequency_khz: Column,
    pub latitude_deg: Column,
    pub longitude_deg: Column,
    pub elevation_ft: Column,
    pub iso_country: Column,
    pub dme_frequency_khz: Column,
    pub dme_channel: Column,
    pub dme_latitude_deg: Column,
    pub dme_longitude_deg: Column,
    pub dme_elevation_ft: Column,
    pub slaved_variation_deg: Column,
    pub magnetic_variation_deg: Column,
    pub usage_type: Column,
    pub power: Column,
    pub associated_airport: Column,
}

impl Record for Navaid {
    type Columns = NavaidColumns;

    open spec fn key_of(v: NavaidView) -> Id {
        v.id
    }

    open spec fn columns(header: Seq<Seq<char>>) -> NavaidColumns {
        NavaidColumns {
            id: locate(header, "id"@),
            filename: locate(header, "filename"@),
            ident: locate(header, "ident"@),
            name: locate(header, "name"@),
            navaid_type: locate(header, "type"@),
            frequency_khz: locate(header, "frequency_khz"@),
            latitude_deg: locate(header, "latitude_deg"@),
            longitude_deg: locate(header, "longitude_deg"@),
            elevation_ft: locate(header, "elevation_ft"@),
            iso_country: locate(header, "iso_country"@),
            dme_frequency_khz: locate(header, "dme_frequency_khz"@),
            dme_channel: locate(header, "dme_channel"@),
            dme_latitude_deg: locate(header, "dme_latitude_deg"@),
            dme_longitude_deg: locate(header, "dme_longitude_deg"@),
            dme_elevation_ft: locate(header, "dme_elevation_ft"@),
            slaved_variation_deg: locate(header, "slaved_variation_deg"@),
            magnetic_variation_deg: locate(header, "magnetic_variation_deg"@),
            usage_type: locate(header, "usageType"@),
            power: locate(header, "power"@),
            associated_airport: locate(header, "associated_airport"@),
        }
    }

    open spec fn decoded(columns: NavaidColumns, fields: Seq<Seq<char>>, row: nat) -> Result<
        NavaidView,
        DecodeFault,
    > {
        let id = id_field(cell_at(columns.id, fields));
        let filename = text_field(cell_at(columns.filename, fields));
        let ident = text_field(cell_at(columns.ident, fields));
        let name = text_field(cell_at(columns.name, fields));
        let navaid_type = navaid_type_field(cell_at(columns.navaid_type, fields));
        let frequency_khz = text_field(cell_at(columns.frequency_khz, fields));
        let latitude_deg = degrees_field(cell_at(columns.latitude_deg, fields));
        let longitude_deg = degrees_field(cell_at(columns.longitude_deg, fields));
        let elevation_ft = feet_field(cell_at(columns.elevation_ft, fields));
        let iso_country = text_field(cell_at(columns.iso_country, fields));
        let dme_frequency_khz = text_field(cell_at(columns.dme_frequency_khz, fields));
        let dme_channel = text_field(cell_at(columns.dme_channel, fields));
        let dme_latitude_deg = degrees_field(cell_at(columns.dme_latitude_deg, fields));
        let dme_longitude_deg = degrees_field(cell_at(columns.dme_longitude_deg, fields));
        let dme_elevation_ft = feet_field(cell_at(columns.dme_elevation_ft, fields));
        let slaved_variation_deg = degrees_field(cell_at(columns.slaved_variation_deg, fields));
        let magnetic_variation_deg = degrees_field(cell_at(columns.magnetic_variation_deg, fields));
        let usage_type = usage_type_field(cell_at(columns.usage_type, fields));
        let power = power_field(cell_at(columns.power, fields));
        let associated_airport = text_field(cell_at(columns.associated_airport, fields));
        if id is Err {
            Err(located(row, "id"@, id->Err_0))
        } else if filename is Err {
            Err(located(row, "filename"@, filename->Err_0))
        } else if ident is Err {
            Err(located(row, "ident"@, ident->Err_0))
        } else if name is Err {
            Err(located(row, "name"@, name->Err_0))
        } else if navaid_type is Err {
            Err(located(row, "type"@, navaid_type->Err_0))
        } else if frequency_khz is Err {
            Err(located(row, "frequency_khz"@, frequency_khz->Err_0))
        } else if latitude_deg is Err {
            Err(located(row, "latitude_deg"@, latitude_deg->Err_0))
        } else if longitude_deg is Err {
            Err(located(row, "longitude_deg"@, longitude_deg->Err_0))
        } else if elevation_ft is Err {
            Err(located(row, "elevation_ft"@, elevation_ft->Err_0))
        } else if iso_country is Err {
            Err(located(row, "iso_country"@, iso_country->Err_0))
        } else if dme_frequency_khz is Err {
            Err(located(row, "dme_frequency_khz"@, dme_frequency_khz->Err_0))
        } else if dme_channel is Err {
            Err(located(row, "dme_channel"@, dme_channel->Err_0))
        } else if dme_latitude_deg is Err {
            Err(located(row, "dme_latitude_deg"@, dme_latitude_deg->Err_0))
        } else if dme_longitude_deg is Err {
            Err(located(row, "dme_longitude_deg"@, dme_longitude_deg->Err_0))
        } else if dme_elevation_ft is Err {
            Err(located(row, "dme_elevation_ft"@, dme_elevation_ft->Err_0))
        } else if slaved_variation_deg is Err {
            Err(located(row, "slaved_variation_deg"@, slaved_variation_deg->Err_0))
        } else if magnetic_variation_deg is Err {
            Err(located(row, "magnetic_variation_deg"@, magnetic_variation_deg->Err_0))
        } else if usage_type is Err {
            Err(located(row, "usageType"@, usage_type->Err_0))
        } else if power is Err {
            Err(located(row, "power"@, power->Err_0))
        } else if associated_airport is Err {
            Err(located(row, "associated_airport"@, associated_airport->Err_0))
        } else {
            Ok(
                NavaidView {
                    id: id->Ok_0,
                    filename: filename->Ok_0,
                    ident: ident->Ok_0,
                    name: name->Ok_0,
                    navaid_type: navaid_type->Ok_0,
                    frequency_khz: frequency_khz->Ok_0,
                    latitude_deg: latitude_deg->Ok_0,
                    longitude_deg: longitude_deg->Ok_0,
                    elevation_ft: elevation_ft->Ok_0,
                    iso_country: iso_country->Ok_0,
                    dme_frequency_khz: dme_frequency_khz->Ok_0,
                    dme_channel: dme_channel->Ok_0,
                    dme_latitude_deg: dme_latitude_deg->Ok_0,
                    dme_longitude_deg: dme_longitude_deg->Ok_0,
                    dme_elevation_ft: dme_elevation_ft->Ok_0,
                    slaved_variation_deg: slaved_variation_deg->Ok_0,
                    magnetic_variation_deg: magnetic_variation_deg->Ok_0,
                    usage_type: usage_type->Ok_0,
                    power: power->Ok_0,
                    associated_airport: associated_airport->Ok_0,
                },
            )
        }
    }

    fn key(&self) -> (k: Id) {
        self.id
    }

    fn find_columns(header: &csv::StringRecord) -> (columns: NavaidColumns) {
        NavaidColumns {
            id: find_column(header, "id"),
            filename: find_column(header, "filename"),
            ident: find_column(header, "ident"),
            name: find_column(header, "name"),
            navaid_type: find_column(header, "type"),
            frequency_khz: find_column(header, "frequency_khz"),
            latitude_deg: find_column(header, "latitude_deg"),
            longitude_deg: find_column(header, "longitude_deg"),
            elevation_ft: find_column(header, "elevation_ft"),
            iso_country: find_column(header, "iso_country"),
            dme_frequency_khz: find_column(header, "dme_frequency_khz"),
            dme_channel: find_column(header, "dme_channel"),
            dme_latitude_deg: find_column(header, "dme_latitude_deg"),
            dme_longitude_deg: find_column(header, "dme_longitude_deg"),
            dme_elevation_ft: find_column(header, "dme_elevation_ft"),
            slaved_variation_deg: find_column(header, "slaved_variation_deg"),
            magnetic_variation_deg: find_column(header, "magnetic_variation_deg"),
            usage_type: find_column(header, "usageType"),
            power: find_column(header, "power"),
            associated_airport: find_column(header, "associated_airport"),
        }
    }

    fn decode(columns: &NavaidColumns, row: &csv::StringRecord, number: usize) -> (r: Result<
        Navaid,
        DecodeError,
    >) {
        let id = match id_cell(cell(columns.id, row)) {
            Ok(v) => v,
            Err(e) => {
                return Err(DecodeError::at(number, "id", e));
            },
        };
        let filename = match text_cell(cell(columns.filename, row)) {
            Ok(v) => v,
            Err(e) => {
                return Err(DecodeError::at(number, "filename", e));
            },
        };
        let ident = match text_cell(cell(columns.ident, row)) {
            Ok(v) => v,
            Err(e) => {
                return Err(DecodeError::at(number, "ident", e));
            },
        };
        let name = match text_cell(cell(columns.name, row)) {
            Ok(v) => v,
            Err(e) => {
                return Err(DecodeError::at(number, "name", e));
            },
        };
        let navaid_type = match navaid_type_cell(cell(columns.navaid_type, row)) {
            Ok(v) => v,
            Err(e) => {
                return Err(DecodeError::at(number, "type", e));
            },
        };
        let frequency_khz = match text_cell(cell(columns.frequency_khz, row)) {
            Ok(v) => v,
            Err(e) => {
                return Err(DecodeError::at(number, "frequency_khz", e));
            },
        };
        let latitude_deg = match degrees_cell(cell(columns.latitude_deg, row)) {
            Ok(v) => v,
            Err(e) => {
                return Err(DecodeError::at(number, "latitude_deg", e));
            },
        };
        let longitude_deg = match degrees_cell(cell(columns.longitude_deg, row)) {
            Ok(v) => v,
            Err(e) => {
                return Err(DecodeError::at(number, "longitude_deg", e));
            },
        };
        let elevation_ft = match feet_cell(cell(columns.elevation_ft, row)) {
            Ok(v) => v,
            Err(e) => {
                return Err(DecodeError::at(number, "elevation_ft", e));
            },
        };
        let iso_country = match text_cell(cell(columns.iso_country, row)) {
            Ok(v) => v,
            Err(e) => {
                return Err(DecodeError::at(number, "iso_country", e));
            },
        };
        let dme_frequency_khz = match text_cell(cell(columns.dme_frequency_khz, row)) {
            Ok(v) => v,
            Err(e) => {
                return Err(DecodeError::at(number, "dme_frequency_khz", e));
            },
        };
        let dme_channel = match text_cell(cell(columns.dme_channel, row)) {
            Ok(v) => v,
            Err(e) => {
                return Err(DecodeError::at(number, "dme_channel", e));
            },
        };
        let dme_latitude_deg = match degrees_cell(cell(columns.dme_latitude_deg, row)) {
            Ok(v) => v,
            Err(e) => {
                return Err(DecodeError::at(number, "dme_latitude_deg", e));
            },
        };
        let dme_longitude_deg = match degrees_cell(cell(columns.dme_longitude_deg, row)) {
            Ok(v) => v,
            Err(e) => {
                return Err(DecodeError::at(number, "dme_longitude_deg", e));
            },
        };
        let dme_elevation_ft = match feet_cell(cell(columns.dme_elevation_ft, row)) {
            Ok(v) => v,
            Err(e) => {
                return Err(DecodeError::at(number, "dme_elevation_ft", e));
            },
        };
        let slaved_variation_deg = match degrees_cell(cell(columns.slaved_variation_deg, row)) {
            Ok(v) => v,
            Err(e) => {
                return Err(DecodeError::at(number, "slaved_variation_deg", e));
            },
        };
        let magnetic_variation_deg = match degrees_cell(cell(columns.magnetic_variation_deg, row)) {
            Ok(v) => v,
            Err(e) => {
                return Err(DecodeError::at(number, "magnetic_variation_deg", e));
            },
        };
        let usage_type = match usage_type_cell(cell(columns.usage_type, row)) {
            Ok(v) => v,
            Err(e) => {
                return Err(DecodeError::at(number, "usageType", e));
            },
        };
        let power = match power_cell(cell(columns.power, row)) {
            Ok(v) => v,
            Err(e) => {
                return Err(DecodeError::at(number, "power", e));
            },
        };
        let associated_airport = match text_cell(cell(columns.associated_airport, row)) {
            Ok(v) => v,
            Err(e) => {
                return Err(DecodeError::at(number, "associated_airport", e));
            },
        };
        Ok(
            Navaid {
                id,
                filename,
                ident,
                name,
                navaid_type,
                frequency_khz,
                latitude_deg,
                longitude_deg,
                elevation_ft,
                iso_country,
                dme_frequency_khz,
                dme_channel,
                dme_latitude_deg,
                dme_longitude_deg,
                dme_elevation_ft,
                slaved_variation_deg,
                magnetic_variation_deg,
                usage_type,
                power,
                associated_airport,
            },
        )
    }
}

/// Builds the table of all navaids from the text of `navaids.csv`, each
/// navaid under its identifier. The first row that fails stops the load.
pub fn get_navaids_csv(content: &str) -> (r: Result<BTreeMap<Id, Navaid>, DecodeError>)
    ensures
        load_outcome(r) == table_of::<Navaid>(records_of(content@)),
        r matches Ok(table) ==> keyed_by_id(table@),
{
    load::<Navaid>(content)
}

} // verus!
