//! The hash table behind the unlock flags.
//!
//! The table is a `hashbrown::HashMap<usize, bool>`. Nothing in this file is
//! proved: each function states what the map's own method does, in terms of
//! [`table_entries`], and the rest of the library is verified against that.

use vstd::prelude::*;

verus! {

/// A hash map from a power's id to its unlock flag.
#[verifier::external_body]
pub struct FlagTable {
    map: hashbrown::HashMap<usize, bool>,
}

/// What a table holds: the flag stored under each id that is present.
pub uninterp spec fn table_entries(t: FlagTable) -> Map<usize, bool>;

/// `HashMap::new`: a table without entries.
#[verifier::external_body]
pub(crate) fn table_new() -> (table: FlagTable)
    ensures
        table_entries(table) =~= Map::empty(),
{
    FlagTable { map: hashbrown::HashMap::new() }
}

/// `HashMap::insert`: afterwards `id` maps to `flag` and every other entry is
/// as before. Returns the flag that `id` had, if it had one.
#[verifier::external_body]
pub(crate) fn table_insert(t: &mut FlagTable, id: usize, flag: bool) -> (prev: Option<bool>)
    ensures
        table_entries(*final(t)) == table_entries(*old(t)).insert(id, flag),
        prev == (if table_entries(*old(t)).dom().contains(id) {
            Some(table_entries(*old(t))[id])
        } else {
            None
        }),
{
    t.map.insert(id, flag)
}

/// `HashMap::len`: the number of entries.
#[verifier::external_body]
pub(crate) fn table_len(t: &FlagTable) -> (count: usize)
    ensures
        count == table_entries(*t).len(),
{
    t.map.len()
}

/// `HashMap::get_key_value`: the entry stored under `id`, or `None` where
/// the table has none.
#[verifier::external_body]
pub(crate) fn table_get_key_value(t: &FlagTable, id: usize) -> (entry: Option<(usize, bool)>)
    ensures
        entry == (if table_entries(*t).dom().contains(id) {
            Some((id, table_entries(*t)[id]))
        } else {
            None
        }),
{
    t.map.get_key_value(&id).map(|(k, v)| (*k, *v))
}

/// Whether `entries` lists `table`: every entry of the table stands in the
/// list, the list holds nothing else, and no id stands in it twice.
pub open spec fn is_listing(entries: Seq<(usize, bool)>, table: Map<usize, bool>) -> bool {
    &&& forall|i: int, j: int|
        0 <= i < j < entries.len() ==> (#[trigger] entries[i]).0 != (#[trigger] entries[j]).0
    &&& forall|i: int|
        0 <= i < entries.len() ==> table.contains_pair((#[trigger] entries[i]).0, entries[i].1)
    &&& forall|id: usize| #[trigger]
        table.dom().contains(id) ==> exists|i: int|
            0 <= i < entries.len() && (#[trigger] entries[i]).0 == id
}

/// `HashMap::iter`, collected: every entry of the table exactly once, in an
/// order that the map does not promise.
#[verifier::external_body]
pub(crate) fn table_iter(t: &FlagTable) -> (entries: Vec<(usize, bool)>)
    ensures
        is_listing(entries@, table_entries(*t)),
{
    t.map.iter().map(|(k, v)| (*k, *v)).collect()
}

} // verus!
