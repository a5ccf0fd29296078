//! Regions: the administrative subdivisions of countries.

use crate::continent::{continent_cell, continent_field, Continent};
use crate::error::{located, DecodeError, DecodeFault};
use crate::fields::{id_cell, id_field, keywords_cell, keywords_field, text_cell, text_field};
use crate::source::records_of;
use crate::table::{
    cell, cell_at, find_column, hash_id, keyed_by_id, load, load_outcome, locate, table_of, Column,
    Id, Record,
};
use std::cmp::Ordering;
use std::collections::BTreeMap;
use std::hash::{Hash, Hasher};
use vstd::prelude::*;
use vstd::std_specs::cmp::{PartialEqSpec, PartialOrdSpec};

verus! {

/// Represents a high-level administrative subdivision of a country.
#[derive(Clone, Debug)]
pub struct Region {
    id: Id,
    code: String,
    local_code: String,
    name: String,
    continent: Continent,
    iso_country: String,
    wikipedia_link: String,
    keywords: Vec<String>,
}

/// What a [`Region`] holds.
pub ghost struct RegionView {
    pub id: Id,
    pub code: Seq<char>,
    pub local_code: Seq<char>,
    pub name: Seq<char>,
    pub continent: Continent,
    pub iso_country: Seq<char>,
    pub wikipedia_link: Seq<char>,
    pub keywords: Seq<Seq<char>>,
}

impl View for Region {
    type V = RegionView;

    closed spec fn view(&self) -> RegionView {
        RegionView {
            id: self.id,
            code: self.code@,
            local_code: self.local_code@,
            name: self.name@,
            continent: self.continent,
            iso_country: self.iso_country@,
            wikipedia_link: self.wikipedia_link@,
            keywords: self.keywords.deep_view(),
        }
    }
}

impl Region {
    /// Internal integer identifier of the region. It stays the same even when
    /// the region code changes.
    pub fn id(&self) -> (v: Id)
        ensures
            v == self@.id,
    {
        self.id
    }

    /// The code of the region: `local_code` prefixed with the country code and
    /// a hyphen.
    pub fn code(&self) -> (v: &str)
        ensures
            v@ == self@.code,
    {
        self.code.as_str()
    }

    /// The local code of the administrative subdivision. ISO 3166-2 codes are
    /// used where they exist; `U-A` stands for an unassigned region.
    pub fn local_code(&self) -> (v: &str)
        ensures
            v@ == self@.local_code,
    {
        self.local_code.as_str()
    }

    /// The common English-language name of the administrative subdivision.
    pub fn name(&self) -> (v: &str)
        ensures
            v@ == self@.name,
    {
        self.name.as_str()
    }

    /// The continent where the region is, or mostly is.
    pub fn continent(&self) -> (v: &Continent)
        ensures
            *v == self@.continent,
    {
        &self.continent
    }

    /// The two-character code of the country that contains the region: the
    /// `code` of a country.
    pub fn iso_country(&self) -> (v: &str)
        ensures
            v@ == self@.iso_country,
    {
        self.iso_country.as_str()
    }

    /// Link to the Wikipedia article about the region.
    pub fn wikipedia_link(&self) -> (v: &str)
        ensures
            v@ == self@.wikipedia_link,
    {
        self.wikipedia_link.as_str()
    }

    /// Search keywords and phrases for the region, one item each.
    pub fn keywords(&self) -> (v: &Vec<String>)
        ensures
            v.deep_view() == self@.keywords,
    {
        &self.keywords
    }
}

/// Two regions are equal where their identifiers are.
impl PartialEq for Region {
    fn eq(&self, other: &Self) -> (same: bool) {
        self.id == other.id
    }
}

impl Eq for Region {
}

impl vstd::std_specs::cmp::PartialEqSpecImpl for Region {
    open spec fn obeys_eq_spec() -> bool {
        true
    }

    open spec fn eq_spec(&self, other: &Self) -> bool {
        self@.id == other@.id
    }
}

/// Regions are ordered as their identifiers are.
impl PartialOrd for Region {
    fn partial_cmp(&self, other: &Self) -> (order: Option<Ordering>) {
        if self.id < other.id {
            Some(Ordering::Less)
        } else if self.id == other.id {
            Some(Ordering::Equal)
        } else {
            Some(Ordering::Greater)
        }
    }
}

impl vstd::std_specs::cmp::PartialOrdSpecImpl for Region {
    open spec fn obeys_partial_cmp_spec() -> bool {
        true
    }

    open spec fn partial_cmp_spec(&self, other: &Self) -> Option<Ordering> {
        if self@.id < other@.id {
            Some(Ordering::Less)
        } else if self@.id == other@.id {
            Some(Ordering::Equal)
        } else {
            Some(Ordering::Greater)
        }
    }
}

/// The hash of a region is that of its identifier.
impl Hash for Region {
    fn hash<H: Hasher>(&self, state: &mut H) {
        hash_id(self.id, state)
    }
}

/// Identity alone decides: two regions are equal exactly where their
/// identifiers are equal, and one comes before the other exactly where its
/// identifier is the smaller, whatever else they hold.
pub proof fn lemma_identity_decides(a: Region, b: Region)
    ensures
        a.eq_spec(&b) <==> a@.id == b@.id,
        a.partial_cmp_spec(&b) == Some(Ordering::Equal) <==> a@.id == b@.id,
        a.partial_cmp_spec(&b) == Some(Ordering::Less) <==> a@.id < b@.id,
        a.partial_cmp_spec(&b) == Some(Ordering::Greater) <==> a@.id > b@.id,
{
}

/// Where a header has the columns of a [`Region`].
#[derive(Clone, Copy, Debug)]
pub struct RegionColumns {
    pub id: Column,
    pub code: Column,
    pub local_code: Column,
    pub name: Column,
    pub continent: Column,
    pub iso_country: Column,
    pub wikipedia_link: Column,
    pub keywords: Column,
}

impl Record for Region {
    type Columns = RegionColumns;

    open spec fn key_of(v: RegionView) -> Id {
        v.id
    }

    open spec fn columns(header: Seq<Seq<char>>) -> RegionColumns {
        RegionColumns {
            id: locate(header, "id"@),
            code: locate(header, "code"@),
            local_code: locate(header, "local_code"@),
            name: locate(header, "name"@),
            continent: locate(header, "continent"@),
            iso_country: locate(header, "iso_country"@),
            wikipedia_link: locate(header, "wikipedia_link"@),
            keywords: locate(header, "keywords"@),
        }
    }

    open spec fn decoded(columns: RegionColumns, fields: Seq<Seq<char>>, row: nat) -> Result<
        RegionView,
        DecodeFault,
    > {
        let id = id_field(cell_at(columns.id, fields));
        let code = text_field(cell_at(columns.code, fields));
        let local_code = text_field(cell_at(columns.local_code, fields));
        let name = text_field(cell_at(columns.name, fields));
        let continent = continent_field(cell_at(columns.continent, fields));
        let iso_country = text_field(cell_at(columns.iso_country, fields));
        let wikipedia_link = text_field(cell_at(columns.wikipedia_link, fields));
        let keywords = keywords_field(cell_at(columns.keywords, fields));
        if id is Err {
            Err(located(row, "id"@, id->Err_0))
        } else if code is Err {
            Err(located(row, "code"@, code->Err_0))
        } else if local_code is Err {
            Err(located(row, "local_code"@, local_code->Err_0))
        } else if name is Err {
            Err(located(row, "name"@, name->Err_0))
        } else if continent is Err {
            Err(located(row, "continent"@, continent->Err_0))
        } else if iso_country is Err {
            Err(located(row, "iso_country"@, iso_country->Err_0))
        } else if wikipedia_link is Err {
            Err(located(row, "wikipedia_link"@, wikipedia_link->Err_0))
        } else if keywords is Err {
            Err(located(row, "keywords"@, keywords->Err_0))
        } else {
            Ok(
                RegionView {
                    id: id->Ok_0,
                    code: code->Ok_0,
                    local_code: local_code->Ok_0,
                    name: name->Ok_0,
                    continent: continent->Ok_0,
                    iso_country: iso_country->Ok_0,
                    wikipedia_link: wikipedia_link->Ok_0,
                    keywords: keywords->Ok_0,
                },
            )
        }
    }

    fn key(&self) -> (k: Id) {
        self.id
    }

    fn find_columns(header: &csv::StringRecord) -> (columns: RegionColumns) {
        RegionColumns {
            id: find_column(header, "id"),
            code: find_column(header, "code"),
            local_code: find_column(header, "local_code"),
            name: find_column(header, "name"),
            continent: find_column(header, "continent"),
            iso_country: find_column(header, "iso_country"),
            wikipedia_link: find_column(header, "wikipedia_link"),
            keywords: find_column(header, "keywords"),
        }
    }

    fn decode(columns: &RegionColumns, row: &csv::StringRecord, number: usize) -> (r: Result<
        Region,
        DecodeError,
    >) {
        let id = match id_cell(cell(columns.id, row)) {
            Ok(v) => v,
            Err(e) => {
                return Err(DecodeError::at(number, "id", e));
            },
        };
        let code = match text_cell(cell(columns.code, row)) {
            Ok(v) => v,
            Err(e) => {
                return Err(DecodeError::at(number, "code", e));
            },
        };
        let local_code = match text_cell(cell(columns.local_code, row)) {
            Ok(v) => v,
            Err(e) => {
                return Err(DecodeError::at(number, "local_code", e));
            },
        };
        let name = match text_cell(cell(columns.name, row)) {
            Ok(v) => v,
            Err(e) => {
                return Err(DecodeError::at(number, "name", e));
            },
        };
        let continent = match continent_cell(cell(columns.continent, row)) {
            Ok(v) => v,
            Err(e) => {
                return Err(DecodeError::at(number, "continent", e));
            },
        };
        let iso_country = match text_cell(cell(columns.iso_country, row)) {
            Ok(v) => v,
            Err(e) => {
                return Err(DecodeError::at(number, "iso_country", e));
            },
        };
        let wikipedia_link = match text_cell(cell(columns.wikipedia_link, row)) {
            Ok(v) => v,
            Err(e) => {
                return Err(DecodeError::at(number, "wikipedia_link", e));
            },
        };
        let keywords = match keywords_cell(cell(columns.keywords, row)) {
            Ok(v) => v,
            Err(e) => {
                return Err(DecodeError::at(number, "keywords", e));
            },
        };
        Ok(
            Region {
                id,
                code,
                local_code,
                name,
                continent,
                iso_country,
                wikipedia_link,
                keywords,
            },
        )
    }
}

/// Builds the table of all regions from the text of `regions.csv`, each
/// region under its identifier. The first row that fails stops the load.
pub fn get_regions_csv(content: &str) -> (r: Result<BTreeMap<Id, Region>, DecodeError>)
    ensures
        load_outcome(r) == table_of::<Region>(records_of(content@)),
        r matches Ok(table) ==> keyed_by_id(table@),
{
    load::<Region>(content)
}

} // verus!
