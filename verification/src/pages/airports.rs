//! The listing of airports and the page of one airport.

use crate::airports::{Airport, AirportView};
use crate::pages::{ascending, find, lists, select, text_matches, wants_text, ErrorResponse, Query};
use crate::table::{keyed_by_id, Id};
use std::collections::BTreeMap;
use vstd::prelude::*;

verus! {

/// The filters of the listing of airports. A filter that is `None` was not
/// given.
#[derive(Clone, Debug)]
pub struct QueryParams {
    pub ident: Option<String>,
    pub iso_country: Option<String>,
    pub iso_region: Option<String>,
    pub gps_code: Option<String>,
    pub iata_code: Option<String>,
    pub local_code: Option<String>,
}

/// The query without filters.
impl Default for QueryParams {
    fn default() -> (params: QueryParams)
        ensures
            params.unfiltered(),
    {
        QueryParams {
            ident: None,
            iso_country: None,
            iso_region: None,
            gps_code: None,
            iata_code: None,
            local_code: None,
        }
    }
}

impl Query<Airport> for QueryParams {
    open spec fn unfiltered(&self) -> bool {
        self.ident is None
            && self.iso_country is None
            && self.iso_region is None
            && self.gps_code is None
            && self.iata_code is None
            && self.local_code is None
    }

    open spec fn selects(&self, record: AirportView) -> bool {
        ||| wants_text(self.ident, record.ident)
        ||| wants_text(self.iso_country, record.iso_country)
        ||| wants_text(self.iso_region, record.iso_region)
        ||| wants_text(self.gps_code, record.gps_code)
        ||| wants_text(self.iata_code, record.iata_code)
        ||| wants_text(self.local_code, record.local_code)
    }

    fn is_unfiltered(&self) -> (b: bool) {
        self.ident.is_none()
            && self.iso_country.is_none()
            && self.iso_region.is_none()
            && self.gps_code.is_none()
            && self.iata_code.is_none()
            && self.local_code.is_none()
    }

    fn is_selected(&self, record: &Airport) -> (b: bool) {
        text_matches(&self.ident, record.ident())
            || text_matches(&self.iso_country, record.iso_country())
            || text_matches(&self.iso_region, record.iso_region())
            || text_matches(&self.gps_code, record.gps_code())
            || text_matches(&self.iata_code, record.iata_code())
            || text_matches(&self.local_code, record.local_code())
    }
}

/// Lists the airports that the query asks for: all of them where it has no
/// filter, else those that one filter at least selects, each once, in
/// ascending order of key.
pub fn get_airports<'a>(
    airports: &'a BTreeMap<Id, Airport>,
    params: &QueryParams,
) -> (body: Vec<&'a Airport>)
    ensures
        exists|keys: Seq<Id>| lists(airports@, params, keys, body@),
        keyed_by_id(airports@) ==> ascending(body@),
{
    select(airports, params)
}

/// Finds the airport with the key `id`, or says that there is none.
pub fn get_airports_by_id<'a>(airports: &'a BTreeMap<Id, Airport>, id: Id) -> (r: Result<
    &'a Airport,
    ErrorResponse,
>)
    ensures
        match r {
            Ok(item) => airports@.contains_key(id) && *item == airports@[id],
            Err(e) => !airports@.contains_key(id) && e@ == "No airport with the specified ID."@,
        },
{
    match find(airports, id) {
        Some(item) => Ok(item),
        None => Err(ErrorResponse::new("No airport with the specified ID.")),
    }
}

} // verus!
