//! The concurrent map that backs every collection of the directory.
//!
//! Nothing here is proved: each function states what the map does, and the rest
//! of the library is verified against these statements.

use vstd::prelude::*;
use dashmap::DashMap;
use crate::model::Record;

verus! {

/// A table: records by id.
pub type Table = DashMap<u128, Record>;

/// `dashmap::DashMap`, taken as it is. What a map of this type holds is known
/// only through `table_entries`.
#[verifier::external_type_specification]
#[verifier::external_body]
#[verifier::reject_recursive_types(K)]
#[verifier::reject_recursive_types(V)]
#[verifier::reject_recursive_types(S)]
pub struct ExDashMap<K, V, S>(DashMap<K, V, S>);

/// The entries that a table holds, by key. Every function below says what it
/// does in terms of these.
pub uninterp spec fn table_entries(t: Table) -> Map<u128, Record>;

/// Whether `all` lists the entries of a table, each key once, in some order.
pub open spec fn lists_entries(all: Seq<(u128, Record)>, entries: Map<u128, Record>) -> bool {
    &&& forall|i: int|
        0 <= i < all.len() ==> entries.contains_key(#[trigger] all[i].0) && entries[all[i].0]
            == all[i].1
    &&& forall|k: u128|
        entries.contains_key(k) ==> exists|i: int| 0 <= i < all.len() && #[trigger] all[i].0 == k
    &&& forall|i: int, j: int| 0 <= i < j < all.len() ==> all[i].0 != all[j].0
}

/// `DashMap::new`: a table without entries.
#[verifier::external_body]
pub(crate) fn table_new() -> (table: Table)
    ensures
        table_entries(table).dom() == Set::<u128>::empty(),
{
    DashMap::new()
}

/// `DashMap::insert`: afterwards `key` maps to `value`, and every other key is
/// as it was. The value that the key had before is dropped. The call comes
/// back: nothing else holds a reference into the table while it is borrowed
/// here, so it cannot wait on a lock, and it does not panic.
#[verifier::external_body]
pub(crate) fn table_insert(t: &mut Table, key: u128, value: Record)
    ensures
        table_entries(*final(t)) == table_entries(*old(t)).insert(key, value),
    no_unwind
{
    t.insert(key, value);
}

/// `DashMap::remove`: afterwards `key` is absent, and every other key is as it
/// was. The entry that is taken out is dropped. The call comes back, as that
/// of `table_insert` does.
#[verifier::external_body]
pub(crate) fn table_remove(t: &mut Table, key: u128)
    ensures
        table_entries(*final(t)) == table_entries(*old(t)).remove(key),
    no_unwind
{
    t.remove(&key);
}

/// `DashMap::get`, with the value cloned out of the guard: the record under
/// `key`, or `None` where the table has no such key.
#[verifier::external_body]
pub(crate) fn table_get(t: &Table, key: u128) -> (found: Option<Record>)
    ensures
        found == (if table_entries(*t).contains_key(key) {
            Some(table_entries(*t)[key])
        } else {
            None
        }),
{
    t.get(&key).map(|r| r.value().clone())
}

/// `DashMap::len`: the number of entries, which therefore fits in a `usize`.
#[verifier::external_body]
pub(crate) fn table_len(t: &Table) -> (n: usize)
    ensures
        n == table_entries(*t).dom().len(),
{
    t.len()
}

/// `DashMap::iter`, with each entry copied out: every entry once, in the order
/// in which the map happens to walk them.
#[verifier::external_body]
pub(crate) fn table_snapshot(t: &Table) -> (all: Vec<(u128, Record)>)
    ensures
        lists_entries(all@, table_entries(*t)),
{
    t.iter().map(|e| (*e.key(), e.value().clone())).collect()
}

} // verus!
