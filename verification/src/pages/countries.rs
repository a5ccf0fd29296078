//! The listing of countries and the page of one country.

use crate::countries::{Country, CountryView};
use crate::pages::{ascending, find, lists, select, text_matches, wants_text, ErrorResponse, Query};
use crate::table::{keyed_by_id, Id};
use std::collections::BTreeMap;
use vstd::prelude::*;

verus! {

/// The filters of the listing of countries. A filter that is `None` was not
/// given.
#[derive(Clone, Debug)]
pub struct QueryParams {
    pub code: Option<String>,
    pub name: Option<String>,
}

/// The query without filters.
impl Default for QueryParams {
    fn default() -> (params: QueryParams)
        ensures
            params.unfiltered(),
    {
        QueryParams {
            code: None,
            name: None,
        }
    }
}

impl Query<Country> for QueryParams {
    open spec fn unfiltered(&self) -> bool {
        self.code is None && self.name is None
    }

    open spec fn selects(&self, record: CountryView) -> bool {
        ||| wants_text(self.code, record.code)
        ||| wants_text(self.name, record.name)
    }

    fn is_unfiltered(&self) -> (b: bool) {
        self.code.is_none() && self.name.is_none()
    }

    fn is_selected(&self, record: &Country) -> (b: bool) {
        text_matches(&self.code, record.code())
            || text_matches(&self.name, record.name())
    }
}

/// Lists the countries that the query asks for: all of them where it has no
/// filter, else those that one filter at least selects, each once, in
/// ascending order of key.
pub fn get_countries<'a>(
    countries: &'a BTreeMap<Id, Country>,
    params: &QueryParams,
) -> (body: Vec<&'a Country>)
    ensures
        exists|keys: Seq<Id>| lists(countries@, params, keys, body@),
        keyed_by_id(countries@) ==> ascending(body@),
{
    select(countries, params)
}

/// Finds the country with the key `id`, or says that there is none.
pub fn get_countries_by_id<'a>(countries: &'a BTreeMap<Id, Country>, id: Id) -> (r: Result<
    &'a Country,
    ErrorResponse,
>)
    ensures
        match r {
            Ok(item) => countries@.contains_key(id) && *item == countries@[id],
            Err(e) => !countries@.contains_key(id) && e@ == "No country with the specified ID."@,
        },
{
    match find(countries, id) {
        Some(item) => Ok(item),
        None => Err(ErrorResponse::new("No country with the specified ID.")),
    }
}

} // verus!
