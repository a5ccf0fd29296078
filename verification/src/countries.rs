//! Countries, and entities that are listed like countries.

use crate::continent::{continent_cell, continent_field, Continent};
use crate::error::{located, DecodeError, DecodeFault};
use crate::fields::{id_cell, id_field, keywords_cell, keywords_field, text_cell, text_field};
use crate::source::records_of;
use crate::table::{
    cell, cell_at, find_column, hash_id, keyed_by_id, load, load_outcome, locate, table_of, Column,
    Id, Record,
};
use std::cmp::Ordering;
use std::collections::BTreeMap;
use std::hash::{Hash, Hasher};
use vstd::prelude::*;
use vstd::std_specs::cmp::{PartialEqSpec, PartialOrdSpec};

verus! {

/// Represents a country or country-like entity (e.g. Hong Kong).
#[derive(Clone, Debug)]
pub struct Country {
    id: Id,
    code: String,
    name: String,
    continent: Continent,
    wikipedia_link: String,
    keywords: Vec<String>,
}

/// What a [`Country`] holds.
pub ghost struct CountryView {
    pub id: Id,
    pub code: Seq<char>,
    pub name: Seq<char>,
    pub continent: Continent,
    pub wikipedia_link: Seq<char>,
    pub keywords: Seq<Seq<char>>,
}

impl View for Country {
    type V = CountryView;

    closed spec fn view(&self) -> CountryView {
        CountryView {
            id: self.id,
            code: self.code@,
            name: self.name@,
            continent: self.continent,
            wikipedia_link: self.wikipedia_link@,
            keywords: self.keywords.deep_view(),
        }
    }
}

impl Country {
    /// Internal integer identifier of the country. It stays the same even when
    /// the name or the code changes.
    pub fn id(&self) -> (v: Id)
        ensures
            v == self@.id,
    {
        self.id
    }

    /// The two-character ISO 3166-1 alpha-2 code of the country. A handful of
    /// unofficial codes are in use too, such as `XK` for Kosovo.
    pub fn code(&self) -> (v: &str)
        ensures
            v@ == self@.code,
    {
        self.code.as_str()
    }

    /// The common English-language name of the country.
    pub fn name(&self) -> (v: &str)
        ensures
            v@ == self@.name,
    {
        self.name.as_str()
    }

    /// The continent where the country is, or mostly is.
    pub fn continent(&self) -> (v: &Continent)
        ensures
            *v == self@.continent,
    {
        &self.continent
    }

    /// Link to the Wikipedia article about the country.
    pub fn wikipedia_link(&self) -> (v: &str)
        ensures
            v@ == self@.wikipedia_link,
    {
        self.wikipedia_link.as_str()
    }

    /// Search keywords and phrases for the country, one item each.
    pub fn keywords(&self) -> (v: &Vec<String>)
        ensures
            v.deep_view() == self@.keywords,
    {
        &self.keywords
    }
}

/// Two countries are equal where their identifiers are.
impl PartialEq for Country {
    fn eq(&self, other: &Self) -> (same: bool) {
        self.id == other.id
    }
}

impl Eq for Country {
}

impl vstd::std_specs::cmp::PartialEqSpecImpl for Country {
    open spec fn obeys_eq_spec() -> bool {
        true
    }

    open spec fn eq_spec(&self, other: &Self) -> bool {
        self@.id == other@.id
    }
}

/// Countries are ordered as their identifiers are.
impl PartialOrd for Country {
    fn partial_cmp(&self, other: &Self) -> (order: Option<Ordering>) {
        if self.id < other.id {
            Some(Ordering::Less)
        } else if self.id == other.id {
            Some(Ordering::Equal)
        } else {
            Some(Ordering::Greater)
        }
    }
}

impl vstd::std_specs::cmp::PartialOrdSpecImpl for Country {
    open spec fn obeys_partial_cmp_spec() -> bool {
        true
    }

    open spec fn partial_cmp_spec(&self, other: &Self) -> Option<Ordering> {
        if self@.id < other@.id {
            Some(Ordering::Less)
        } else if self@.id == other@.id {
            Some(Ordering::Equal)
        } else {
            Some(Ordering::Greater)
        }
    }
}

/// The hash of a country is that of its identifier.
impl Hash for Country {
    fn hash<H: Hasher>(&self, state: &mut H) {
        hash_id(self.id, state)
    }
}

/// Identity alone decides: two countries are equal exactly where their
/// identifiers are equal, and one comes before the other exactly where its
/// identifier is the smaller, whatever else they hold.
pub proof fn lemma_identity_decides(a: Country, b: Country)
    ensures
        a.eq_spec(&b) <==> a@.id == b@.id,
        a.partial_cmp_spec(&b) == Some(Ordering::Equal) <==> a@.id == b@.id,
        a.partial_cmp_spec(&b) == Some(Ordering::Less) <==> a@.id < b@.id,
        a.partial_cmp_spec(&b) == Some(Ordering::Greater) <==> a@.id > b@.id,
{
}

/// Where a header has the columns of a [`Country`].
#[derive(Clone, Copy, Debug)]
pub struct CountryColumns {
    pub id: Column,
    pub code: Column,
    pub name: Column,
    pub continent: Column,
    pub wikipedia_link: Column,
    pub keywords: Column,
}

impl Record for Country {
    type Columns = CountryColumns;

    open spec fn key_of(v: CountryView) -> Id {
        v.id
    }

    open spec fn columns(header: Seq<Seq<char>>) -> CountryColumns {
        CountryColumns {
            id: locate(header, "id"@),
            code: locate(header, "code"@),
            name: locate(header, "name"@),
            continent: locate(header, "continent"@),
            wikipedia_link: locate(header, "wikipedia_link"@),
            keywords: locate(header, "keywords"@),
        }
    }

    open spec fn decoded(columns: CountryColumns, fields: Seq<Seq<char>>, row: nat) -> Result<
        CountryView,
        DecodeFault,
    > {
        let id = id_field(cell_at(columns.id, fields));
        let code = text_field(cell_at(columns.code, fields));
        let name = text_field(cell_at(columns.name, fields));
        let continent = continent_field(cell_at(columns.continent, fields));
        let wikipedia_link = text_field(cell_at(columns.wikipedia_link, fields));
        let keywords = keywords_field(cell_at(columns.keywords, fields));
        if id is Err {
            Err(located(row, "id"@, id->Err_0))
        } else if code is Err {
            Err(located(row, "code"@, code->Err_0))
        } else if name is Err {
            Err(located(row, "name"@, name->Err_0))
        } else if continent is Err {
            Err(located(row, "continent"@, continent->Err_0))
        } else if wikipedia_link is Err {
            Err(located(row, "wikipedia_link"@, wikipedia_link->Err_0))
        } else if keywords is Err {
            Err(located(row, "keywords"@, keywords->Err_0))
        } else {
            Ok(
                CountryView {
                    id: id->Ok_0,
                    code: code->Ok_0,
                    name: name->Ok_0,
                    continent: continent->Ok_0,
                    wikipedia_link: wikipedia_link->Ok_0,
                    keywords: keywords->Ok_0,
                },
            )
        }
    }

    fn key(&self) -> (k: Id) {
        self.id
    }

    fn find_columns(header: &csv::StringRecord) -> (columns: CountryColumns) {
        CountryColumns {
            id: find_column(header, "id"),
            code: find_column(header, "code"),
            name: find_column(header, "name"),
            continent: find_column(header, "continent"),
            wikipedia_link: find_column(header, "wikipedia_link"),
            keywords: find_column(header, "keywords"),
        }
    }

    fn decode(columns: &CountryColumns, row: &csv::StringRecord, number: usize) -> (r: Result<
        Country,
        DecodeError,
    >) {
        let id = match id_cell(cell(columns.id, row)) {
            Ok(v) => v,
            Err(e) => {
                return Err(DecodeError::at(number, "id", e));
            },
        };
        let code = match text_cell(cell(columns.code, row)) {
            Ok(v) => v,
            Err(e) => {
                return Err(DecodeError::at(number, "code", e));
            },
        };
        let name = match text_cell(cell(columns.name, row)) {
            Ok(v) => v,
            Err(e) => {
                return Err(DecodeError::at(number, "name", e));
            },
        };
        let continent = match continent_cell(cell(columns.continent, row)) {
            Ok(v) => v,
            Err(e) => {
                return Err(DecodeError::at(number, "continent", e));
            },
        };
        let wikipedia_link = match text_cell(cell(columns.wikipedia_link, row)) {
            Ok(v) => v,
            Err(e) => {
                return Err(DecodeError::at(number, "wikipedia_link", e));
            },
        };
        let keywords = match keywords_cell(cell(columns.keywords, row)) {
            Ok(v) => v,
            Err(e) => {
                return Err(DecodeError::at(number, "keywords", e));
            },
        };
        Ok(
            Country {
                id,
                code,
                name,
                continent,
                wikipedia_link,
                keywords,
            },
        )
    }
}

/// Builds the table of all countries from the text of `countries.csv`, each
/// country under its identifier. The first row that fails stops the load.
pub fn get_countries_csv(content: &str) -> (r: Result<BTreeMap<Id, Country>, DecodeError>)
    ensures
        load_outcome(r) == table_of::<Country>(records_of(content@)),
        r matches Ok(table) ==> keyed_by_id(table@),
{
    load::<Country>(content)
}

} // verus!
