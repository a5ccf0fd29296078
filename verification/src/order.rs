//! The order in which a table is walked.

use crate::table::Id;
use std::collections::btree_map::Iter;
use std::collections::BTreeMap;
use vstd::prelude::*;
use vstd::std_specs::btree::{
    group_btree_axioms, increasing_seq, key_obeys_cmp_spec, spec_btree_map_iter,
};
use vstd::std_specs::cmp::OrdSpec;
use vstd::std_specs::iter::IteratorSpec;

verus! {

/// Whether `entries` are the entries of `table`, each once, in ascending
/// order of key.
pub open spec fn walks<R>(table: Map<Id, R>, entries: Seq<(&Id, &R)>) -> bool {
    &&& forall|i: int, j: int| 0 <= i < j < entries.len() ==> *entries[i].0 < *entries[j].0
    &&& forall|i: int|
        0 <= i < entries.len() ==> table.contains_key(*(#[trigger] entries[i]).0) && table[*entries[i].0]
            == *entries[i].1
    &&& forall|k: Id|
        table.contains_key(k) ==> exists|i: int|
            0 <= i < entries.len() && *(#[trigger] entries[i]).0 == k
}

/// A walk that begins at the start of a table goes through all of it, in
/// ascending order of key.
pub proof fn lemma_walk<'a, R>(table: &'a BTreeMap<Id, R>, iter: Iter<'a, Id, R>)
    requires
        key_obeys_cmp_spec::<Id>() ==> iter == spec_btree_map_iter(table) && increasing_seq(
            iter.remaining().map_values(|kv: (&Id, &R)| *kv.0),
        ),
    ensures
        walks(table@, iter.remaining()),
{
    broadcast use {vstd::laws_cmp::group_laws_cmp, group_btree_axioms};

    assert(key_obeys_cmp_spec::<Id>());
    let entries = iter.remaining();
    let keys = entries.map_values(|kv: (&Id, &R)| *kv.0);
    assert(increasing_seq(keys));
    assert forall|i: int, j: int| 0 <= i < j < entries.len() implies *entries[i].0
        < *entries[j].0 by {
        assert(keys[i].cmp_spec(&keys[j]) is Less);
    }
    assert forall|k: Id| table@.contains_key(k) implies exists|i: int|
        0 <= i < entries.len() && *(#[trigger] entries[i]).0 == k by {
        assert(entries.contains((&k, &table@[k])));
        let i = choose|i: int| 0 <= i < entries.len() && entries[i] == (&k, &table@[k]);
        assert(*entries[i].0 == k);
    }
}

} // verus!
