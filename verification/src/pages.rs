//! What the listing and detail pages of each dataset answer.
//!
//! A listing page takes a query. Without any filter it lists the whole
//! table; with filters it lists the records that one filter at least
//! selects. Either way each record is listed once, in ascending order of the
//! keys of the table.

use crate::order::{lemma_walk, walks};
use crate::table::{keyed_by_id, Id, Record};
use crate::text::{eq_ignoring_case, same_ignoring_case};
use std::collections::BTreeMap;
use vstd::prelude::*;

pub mod airport_frequencies;
pub mod airports;
pub mod countries;
pub mod navaids;
pub mod regions;
pub mod runways;

verus! {

/// For encoding error responses.
#[derive(Clone, Debug, PartialEq, Eq)]
pub struct ErrorResponse {
    error: String,
}

impl View for ErrorResponse {
    type V = Seq<char>;

    closed spec fn view(&self) -> Seq<char> {
        self.error@
    }
}

impl ErrorResponse {
    /// An error response that carries the message `error`.
    pub fn new(error: &str) -> (response: Self)
        ensures
            response@ == error@,
    {
        ErrorResponse { error: error.to_owned() }
    }

    /// The message.
    pub fn error(&self) -> (message: &str)
        ensures
            message@ == self@,
    {
        self.error.as_str()
    }
}

/// The filters of a listing page over records of type `R`.
pub trait Query<R: View> {
    /// Whether the query has no filter at all.
    spec fn unfiltered(&self) -> bool;

    /// Whether one filter at least of the query selects the record.
    spec fn selects(&self, record: R::V) -> bool;

    /// Tests whether the query has no filter at all.
    fn is_unfiltered(&self) -> (b: bool)
        ensures
            b == self.unfiltered(),
    ;

    /// Tests whether one filter at least selects the record.
    fn is_selected(&self, record: &R) -> (b: bool)
        ensures
            b == self.selects(record@),
    ;
}

/// Whether a text filter is given and equals `value`, ASCII case ignored.
pub open spec fn wants_text(filter: Option<String>, value: Seq<char>) -> bool {
    match filter {
        Some(f) => same_ignoring_case(f@, value),
        None => false,
    }
}

/// Whether an identifier filter is given and equals `value`.
pub open spec fn wants_id(filter: Option<Id>, value: Id) -> bool {
    filter == Some(value)
}

/// Tests a text filter.
pub fn text_matches(filter: &Option<String>, value: &str) -> (b: bool)
    ensures
        b == wants_text(*filter, value@),
{
    match filter {
        Some(f) => eq_ignoring_case(f.as_str(), value),
        None => false,
    }
}

/// Tests an identifier filter.
pub fn id_matches(filter: &Option<Id>, value: Id) -> (b: bool)
    ensures
        b == wants_id(*filter, value),
{
    match filter {
        Some(f) => *f == value,
        None => false,
    }
}

/// Whether the listing page shows the record.
pub open spec fn answers<R: View, Q: Query<R>>(query: &Q, record: R::V) -> bool {
    query.unfiltered() || query.selects(record)
}

/// Whether `keys` are, in ascending order, the keys of the records of
/// `table` that the listing page shows, and `body` the records under them.
pub open spec fn lists<R: View, Q: Query<R>>(
    table: Map<Id, R>,
    query: &Q,
    keys: Seq<Id>,
    body: Seq<&R>,
) -> bool {
    &&& keys.len() == body.len()
    &&& forall|i: int, j: int| 0 <= i < j < keys.len() ==> keys[i] < keys[j]
    &&& forall|i: int|
        0 <= i < keys.len() ==> table.contains_key(#[trigger] keys[i]) && *body[i] == table[keys[i]]
            && answers(query, table[keys[i]]@)
    &&& forall|k: Id|
        table.contains_key(k) && answers(query, table[k]@) ==> #[trigger] keys.contains(k)
}

/// Whether the records of `body` stand in ascending order of identifier,
/// none twice.
pub open spec fn ascending<R: Record>(body: Seq<&R>) -> bool {
    forall|i: int, j: int|
        0 <= i < j < body.len() ==> R::key_of((#[trigger] body[i])@) < R::key_of(
            (#[trigger] body[j])@,
        )
}

/// Lists the records of `table` that the query asks for.
pub fn select<'a, R: Record, Q: Query<R>>(table: &'a BTreeMap<Id, R>, query: &Q) -> (body: Vec<
    &'a R,
>)
    ensures
        exists|keys: Seq<Id>| lists(table@, query, keys, body@),
        keyed_by_id(table@) ==> ascending(body@),
{
    let all = query.is_unfiltered();
    let mut body: Vec<&'a R> = Vec::new();
    let ghost mut keys: Seq<Id> = Seq::empty();
    let ghost mut seen: Set<Id> = Set::empty();
    let iter = table.iter();
    proof {
        lemma_walk(table, iter);
    }
    for entry in it: iter
        invariant
            all == query.unfiltered(),
            walks(table@, it.seq()),
            forall|p: int| 0 <= p < it.index() ==> seen.contains(*(#[trigger] it.seq()[p]).0),
            forall|k: Id|
                seen.contains(k) ==> exists|p: int|
                    0 <= p < it.index() && *(#[trigger] it.seq()[p]).0 == k,
            keys.len() == body.len(),
            forall|i: int, j: int| 0 <= i < j < keys.len() ==> keys[i] < keys[j],
            forall|i: int|
                0 <= i < keys.len() ==> seen.contains(#[trigger] keys[i]) && table@.contains_key(
                    keys[i],
                ) && *body@[i] == table@[keys[i]] && answers(query, table@[keys[i]]@),
            forall|k: Id|
                seen.contains(k) && answers(query, table@[k]@) ==> #[trigger] keys.contains(k),
            keyed_by_id(table@) ==> ascending(body@),
    {
        let record: &'a R = entry.1;
        let ghost k = *entry.0;
        let ghost before = keys;
        let ghost listed = body@;
        proof {
            assert(k == *it.seq()[it.index()].0);
            assert forall|i: int| 0 <= i < keys.len() implies #[trigger] keys[i] < k by {
                let p = choose|p: int| 0 <= p < it.index() && *(#[trigger] it.seq()[p]).0 == keys[i];
            }
            assert(!seen.contains(k)) by {
                if seen.contains(k) {
                    let p = choose|p: int| 0 <= p < it.index() && *(#[trigger] it.seq()[p]).0 == k;
                }
            }
        }
        if all || query.is_selected(record) {
            proof {
                keys = keys.push(k);
                assert forall|x: Id|
                    seen.insert(k).contains(x) && answers(query, table@[x]@) implies #[trigger] keys.contains(
                    x,
                ) by {
                    if x == k {
                        assert(keys[before.len() as int] == k);
                    } else {
                        assert(before.contains(x));
                        let n = choose|n: int| 0 <= n < before.len() && before[n] == x;
                        assert(keys[n] == x);
                    }
                }
            }
            body.push(record);
            proof {
                if keyed_by_id(table@) {
                    assert forall|i: int, j: int| 0 <= i < j < body@.len() implies R::key_of(
                        (#[trigger] body@[i])@,
                    ) < R::key_of((#[trigger] body@[j])@) by {
                        assert(keys[i] < keys[j]);
                    }
                }
            }
        } else {
            proof {
                assert forall|x: Id|
                    seen.insert(k).contains(x) && answers(query, table@[x]@) implies #[trigger] keys.contains(
                    x,
                ) by {
                    if x != k {
                        assert(before.contains(x));
                    }
                }
            }
        }
        proof {
            seen = seen.insert(k);
        }
    }
    proof {
        assert forall|k: Id| table@.contains_key(k) implies seen.contains(k) by {}
        assert(lists(table@, query, keys, body@));
    }
    body
}

/// Looks a record up by its key.
pub fn find<'a, R>(table: &'a BTreeMap<Id, R>, id: Id) -> (found: Option<&'a R>)
    ensures
        match found {
            Some(record) => table@.contains_key(id) && *record == table@[id],
            None => !table@.contains_key(id),
        },
{
    table.get(&id)
}

} // verus!
