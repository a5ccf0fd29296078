//! The listing of runways and the page of one runway.

use crate::pages::{
    ascending, find, id_matches, lists, select, text_matches, wants_id, wants_text, ErrorResponse,
    Query,
};
use crate::runways::{Runway, RunwayView};
use crate::table::{keyed_by_id, Id};
use std::collections::BTreeMap;
use vstd::prelude::*;

verus! {

/// The filters of the listing of runways. A filter that is `None` was not
/// given.
#[derive(Clone, Debug)]
pub struct QueryParams {
    pub airport_ref: Option<Id>,
    pub airport_ident: Option<String>,
}

/// The query without filters.
impl Default for QueryParams {
    fn default() -> (params: QueryParams)
        ensures
            params.unfiltered(),
    {
        QueryParams {
            airport_ref: None,
            airport_ident: None,
        }
    }
}

impl Query<Runway> for QueryParams {
    open spec fn unfiltered(&self) -> bool {
        self.airport_ref is None && self.airport_ident is None
    }

    open spec fn selects(&self, record: RunwayView) -> bool {
        ||| wants_id(self.airport_ref, record.airport_ref)
        ||| wants_text(self.airport_ident, record.airport_ident)
    }

    fn is_unfiltered(&self) -> (b: bool) {
        self.airport_ref.is_none() && self.airport_ident.is_none()
    }

    fn is_selected(&self, record: &Runway) -> (b: bool) {
        id_matches(&self.airport_ref, record.airport_ref())
            || text_matches(&self.airport_ident, record.airport_ident())
    }
}

/// Lists the runways that the query asks for: all of them where it has no
/// filter, else those that one filter at least selects, each once, in
/// ascending order of key.
pub fn get_runways<'a>(
    runways: &'a BTreeMap<Id, Runway>,
    params: &QueryParams,
) -> (body: Vec<&'a Runway>)
    ensures
        exists|keys: Seq<Id>| lists(runways@, params, keys, body@),
        keyed_by_id(runways@) ==> ascending(body@),
{
    select(runways, params)
}

/// Finds the runway with the key `id`, or says that there is none.
pub fn get_runways_by_id<'a>(runways: &'a BTreeMap<Id, Runway>, id: Id) -> (r: Result<
    &'a Runway,
    ErrorResponse,
>)
    ensures
        match r {
            Ok(item) => runways@.contains_key(id) && *item == runways@[id],
            Err(e) => !runways@.contains_key(id) && e@ == "No runway with the specified ID."@,
        },
{
    match find(runways, id) {
        Some(item) => Ok(item),
        None => Err(ErrorResponse::new("No runway with the specified ID.")),
    }
}

} // verus!
