//! The listing of airport frequencies and the page of one frequency.

use crate::airport_frequencies::{AirportFrequency, AirportFrequencyView};
use crate::pages::{
    ascending, find, id_matches, lists, select, text_matches, wants_id, wants_text, ErrorResponse,
    Query,
};
use crate::table::{keyed_by_id, Id};
use std::collections::BTreeMap;
use vstd::prelude::*;

verus! {

/// The filters of the listing of airport frequencies. A filter that is `None` was not
/// given.
#[derive(Clone, Debug)]
pub struct QueryParams {
    pub airport_ref: Option<Id>,
    pub airport_ident: Option<String>,
}

/// The query without filters.
impl Default for QueryParams {
    fn default() -> (params: QueryParams)
        ensures
            params.unfiltered(),
    {
        QueryParams {
            airport_ref: None,
            airport_ident: None,
        }
    }
}

impl Query<AirportFrequency> for QueryParams {
    open spec fn unfiltered(&self) -> bool {
        self.airport_ref is None && self.airport_ident is None
    }

    open spec fn selects(&self, record: AirportFrequencyView) -> bool {
        ||| wants_id(self.airport_ref, record.airport_ref)
        ||| wants_text(self.airport_ident, record.airport_ident)
    }

    fn is_unfiltered(&self) -> (b: bool) {
        self.airport_ref.is_none() && self.airport_ident.is_none()
    }

    fn is_selected(&self, record: &AirportFrequency) -> (b: bool) {
        id_matches(&self.airport_ref, record.airport_ref())
            || text_matches(&self.airport_ident, record.airport_ident())
    }
}

/// Lists the airport frequencies that the query asks for: all of them where it has no
/// filter, else those that one filter at least selects, each once, in
/// ascending order of key.
pub fn get_airport_frequencies<'a>(
    airport_frequencies: &'a BTreeMap<Id, AirportFrequency>,
    params: &QueryParams,
) -> (body: Vec<&'a AirportFrequency>)
    ensures
        exists|keys: Seq<Id>| lists(airport_frequencies@, params, keys, body@),
        keyed_by_id(airport_frequencies@) ==> ascending(body@),
{
    select(airport_frequencies, params)
}

/// Finds the frequency with the key `id`, or says that there is none.
pub fn get_airport_frequencies_by_id<'a>(airport_frequencies: &'a BTreeMap<Id, AirportFrequency>, id: Id) -> (r: Result<
    &'a AirportFrequency,
    ErrorResponse,
>)
    ensures
        match r {
            Ok(item) => airport_frequencies@.contains_key(id) && *item == airport_frequencies@[id],
            Err(e) => !airport_frequencies@.contains_key(id) && e@ == "No airport with the specified ID."@,
        },
{
    match find(airport_frequencies, id) {
        Some(item) => Ok(item),
        None => Err(ErrorResponse::new("No airport with the specified ID.")),
    }
}

} // verus!
