//! The listing of regions and the page of one region.

use crate::pages::{ascending, find, lists, select, text_matches, wants_text, ErrorResponse, Query};
use crate::regions::{Region, RegionView};
use crate::table::{keyed_by_id, Id};
use std::collections::BTreeMap;
use vstd::prelude::*;

verus! {

/// The filters of the listing of regions. A filter that is `None` was not
/// given.
#[derive(Clone, Debug)]
pub struct QueryParams {
    pub iso_country: Option<String>,
    pub code: Option<String>,
    pub local_code: Option<String>,
}

/// The query without filters.
impl Default for QueryParams {
    fn default() -> (params: QueryParams)
        ensures
            params.unfiltered(),
    {
        QueryParams {
            iso_country: None,
            code: None,
            local_code: None,
        }
    }
}

impl Query<Region> for QueryParams {
    open spec fn unfiltered(&self) -> bool {
        self.iso_country is None && self.code is None && self.local_code is None
    }

    open spec fn selects(&self, record: RegionView) -> bool {
        ||| wants_text(self.iso_country, record.iso_country)
        ||| wants_text(self.code, record.code)
        ||| wants_text(self.local_code, record.local_code)
    }

    fn is_unfiltered(&self) -> (b: bool) {
        self.iso_country.is_none() && self.code.is_none() && self.local_code.is_none()
    }

    fn is_selected(&self, record: &Region) -> (b: bool) {
        text_matches(&self.iso_country, record.iso_country())
            || text_matches(&self.code, record.code())
            || text_matches(&self.local_code, record.local_code())
    }
}

/// Lists the regions that the query asks for: all of them where it has no
/// filter, else those that one filter at least selects, each once, in
/// ascending order of key.
pub fn get_regions<'a>(
    regions: &'a BTreeMap<Id, Region>,
    params: &QueryParams,
) -> (body: Vec<&'a Region>)
    ensures
        exists|keys: Seq<Id>| lists(regions@, params, keys, body@),
        keyed_by_id(regions@) ==> ascending(body@),
{
    select(regions, params)
}

/// Finds the region with the key `id`, or says that there is none.
pub fn get_regions_by_id<'a>(regions: &'a BTreeMap<Id, Region>, id: Id) -> (r: Result<
    &'a Region,
    ErrorResponse,
>)
    ensures
        match r {
            Ok(item) => regions@.contains_key(id) && *item == regions@[id],
            Err(e) => !regions@.contains_key(id) && e@ == "No region with the specified ID."@,
        },
{
    match find(regions, id) {
        Some(item) => Ok(item),
        None => Err(ErrorResponse::new("No region with the specified ID.")),
    }
}

} // verus!
