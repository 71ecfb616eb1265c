//! The sharded concurrent table that holds the entries, and the contracts
//! under which the store uses it.
//!
//! Nothing in this file is proved: each contract restates what the `dashmap`
//! crate documents for the call that the body makes. Mutating calls are made
//! through `&mut`, so no other holder can change the table between two calls.

use crate::model::Entries;
use dashmap::DashMap;
use vstd::prelude::*;

verus! {

/// `dashmap::DashMap`, carried as an opaque value: what it holds is told
/// only by [`table_entries`].
#[verifier::external_type_specification]
#[verifier::external_body]
#[verifier::reject_recursive_types(K)]
#[verifier::reject_recursive_types(V)]
#[verifier::reject_recursive_types(S)]
pub struct ExDashMap<K, V, S>(DashMap<K, V, S>);

/// The entries that a table holds: each key that is present, with its value.
pub uninterp spec fn table_entries(table: DashMap<Vec<u8>, Vec<u8>>) -> Map<Seq<u8>, Seq<u8>>;

/// `DashMap::new`: a table that holds no entry.
#[verifier::external_body]
pub(crate) fn table_new() -> (table: DashMap<Vec<u8>, Vec<u8>>)
    ensures
        table_entries(table) == Entries::empty(),
{
    DashMap::new()
}

/// `DashMap::insert`: puts `value` under `key`, replacing what was there, and
/// hands back the value that was replaced, or nothing if the key was absent.
/// Every other entry stays as it was.
#[verifier::external_body]
pub(crate) fn table_insert(
    table: &mut DashMap<Vec<u8>, Vec<u8>>,
    key: Vec<u8>,
    value: Vec<u8>,
) -> (prior: Option<Vec<u8>>)
    ensures
        table_entries(*final(table)) == table_entries(*old(table)).insert(key@, value@),
        prior.is_some() == table_entries(*old(table)).contains_key(key@),
        prior matches Some(bytes) ==> bytes@ == table_entries(*old(table))[key@],
{
    table.insert(key, value)
}

/// `DashMap::get`, with the entry's value cloned out of the guard: a copy of
/// the value under `key`, or nothing if the key is absent. The table is left
/// as it was.
#[verifier::external_body]
pub(crate) fn table_get(table: &DashMap<Vec<u8>, Vec<u8>>, key: &[u8]) -> (found: Option<Vec<u8>>)
    ensures
        found.is_some() == table_entries(*table).contains_key(key@),
        found matches Some(bytes) ==> bytes@ == table_entries(*table)[key@],
{
    table.get(key).map(|entry| entry.value().clone())
}

/// `DashMap::remove`: takes the entry under `key` out of the table and hands
/// back its key and value, or nothing if the key was absent. Every other entry
/// stays as it was.
#[verifier::external_body]
pub(crate) fn table_remove(table: &mut DashMap<Vec<u8>, Vec<u8>>, key: &[u8]) -> (removed: Option<
    (Vec<u8>, Vec<u8>),
>)
    ensures
        table_entries(*final(table)) == table_entries(*old(table)).remove(key@),
        removed.is_some() == table_entries(*old(table)).contains_key(key@),
        removed matches Some(pair) ==> pair.0@ == key@ && pair.1@ == table_entries(
            *old(table),
        )[key@],
{
    table.remove(key)
}

} // verus!
