//! The listing of navaids and the page of one navaid.

use crate::navaids::{Navaid, NavaidView};
use crate::pages::{ascending, find, lists, select, text_matches, wants_text, ErrorResponse, Query};
use crate::table::{keyed_by_id, Id};
use std::collections::BTreeMap;
use vstd::prelude::*;

verus! {

/// The filters of the listing of navaids. A filter that is `None` was not
/// given.
#[derive(Clone, Debug)]
pub struct QueryParams {
    pub filename: Option<String>,
    pub ident: Option<String>,
    pub iso_country: Option<String>,
    pub associated_airport: Option<String>,
}

/// The query without filters.
impl Default for QueryParams {
    fn default() -> (params: QueryParams)
        ensures
            params.unfiltered(),
    {
        QueryParams {
            filename: None,
            ident: None,
            iso_country: None,
            associated_airport: None,
        }
    }
}

impl Query<Navaid> for QueryParams {
    open spec fn unfiltered(&self) -> bool {
        self.filename is None
            && self.ident is None
            && self.iso_country is None
            && self.associated_airport is None
    }

    open spec fn selects(&self, record: NavaidView) -> bool {
        ||| wants_text(self.filename, record.filename)
        ||| wants_text(self.ident, record.ident)
        ||| wants_text(self.iso_country, record.iso_country)
        ||| wants_text(self.associated_airport, record.associated_airport)
    }

    fn is_unfiltered(&self) -> (b: bool) {
        self.filename.is_none()
            && self.ident.is_none()
            && self.iso_country.is_none()
            && self.associated_airport.is_none()
    }

    fn is_selected(&self, record: &Navaid) -> (b: bool) {
        text_matches(&self.filename, record.filename())
            || text_matches(&self.ident, record.ident())
            || text_matches(&self.iso_country, record.iso_country())
            || text_matches(&self.associated_airport, record.associated_airport())
    }
}

/// Lists the navaids that the query asks for: all of them where it has no
/// filter, else those that one filter at least selects, each once, in
/// ascending order of key.
pub fn get_navaids<'a>(
    navaids: &'a BTreeMap<Id, Navaid>,
    params: &QueryParams,
) -> (body: Vec<&'a Navaid>)
    ensures
        exists|keys: Seq<Id>| lists(navaids@, params, keys, body@),
        keyed_by_id(navaids@) ==> ascending(body@),
{
    select(navaids, params)
}

/// Finds the navaid with the key `id`, or says that there is none.
pub fn get_navaids_by_id<'a>(navaids: &'a BTreeMap<Id, Navaid>, id: Id) -> (r: Result<
    &'a Navaid,
    ErrorResponse,
>)
    ensures
        match r {
            Ok(item) => navaids@.contains_key(id) && *item == navaids@[id],
            Err(e) => !navaids@.contains_key(id) && e@ == "No navaid with the specified ID."@,
        },
{
    match find(navaids, id) {
        Some(item) => Ok(item),
        None => Err(ErrorResponse::new("No navaid with the specified ID.")),
    }
}

} // verus!
