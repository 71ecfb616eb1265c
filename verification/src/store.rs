//! The store and its four operations.

use crate::error::MyError;
use crate::laws::law_absent_key;
use crate::model::{bytes_of, stored, strictly_removed, Entries};
use crate::table::{table_entries, table_get, table_insert, table_new, table_remove};
use dashmap::DashMap;
use vstd::prelude::*;
use vstd::slice::slice_to_vec;

verus! {

/// Key-value database.
///
/// Reads go through `&self` and may run from many threads at once. Writes go
/// through `&mut self`, so between two calls of one holder nobody else can
/// have changed an entry: that is what lets each contract speak of the store
/// before and after the call.
#[derive(Debug)]
pub struct Memdb {
    table: DashMap<Vec<u8>, Vec<u8>>,
}

/// What a strict removal handed back, as plain bytes on either side.
pub open spec fn removal_view(outcome: Result<Vec<u8>, MyError>) -> Result<Seq<u8>, Seq<u8>> {
    match outcome {
        Ok(bytes) => Ok(bytes@),
        Err(error) => Err(error.missing_key()),
    }
}

impl View for Memdb {
    type V = Entries;

    closed spec fn view(&self) -> Entries {
        table_entries(self.table)
    }
}

impl Memdb {
    /// Create a new instance, holding no entry.
    pub fn open() -> (db: Memdb)
        ensures
            db@ == Entries::empty(),
    {
        Memdb { table: table_new() }
    }

    /// Set a value in the database. Returns the value that `key` had before,
    /// if it had one.
    pub fn set(&mut self, key: &[u8], value: &[u8]) -> (prior: Option<Vec<u8>>)
        ensures
            final(self)@ == old(self)@.insert(key@, value@),
            bytes_of(prior) == stored(old(self)@, key@),
    {
        table_insert(&mut self.table, slice_to_vec(key), slice_to_vec(value))
    }

    /// Get a copy of the value stored under `key`, if there is one.
    pub fn get(&self, key: &[u8]) -> (found: Option<Vec<u8>>)
        ensures
            bytes_of(found) == stored(self@, key@),
    {
        table_get(&self.table, key)
    }

    /// Ensure a key doesn't exist in the database. Returns the value that it
    /// had, if it had one; an absent key is no failure.
    pub fn ensure_del(&mut self, key: &[u8]) -> (prior: Option<Vec<u8>>)
        ensures
            final(self)@ == old(self)@.remove(key@),
            bytes_of(prior) == stored(old(self)@, key@),
            prior is None ==> final(self)@ == old(self)@,
    {
        let removed = table_remove(&mut self.table, key);
        proof {
            if !old(self)@.contains_key(key@) {
                law_absent_key(old(self)@, key@);
            }
        }
        match removed {
            Some((_, prior)) => Some(prior),
            None => None,
        }
    }

    /// Delete a key from the database and return the value that it had.
    /// Fails with `NotFound`, carrying the key, if nothing was stored under it.
    pub fn del(&mut self, key: &[u8]) -> (outcome: Result<Vec<u8>, MyError>)
        ensures
            final(self)@ == old(self)@.remove(key@),
            removal_view(outcome) == strictly_removed(old(self)@, key@),
            outcome is Err ==> final(self)@ == old(self)@,
    {
        let removed = table_remove(&mut self.table, key);
        proof {
            if !old(self)@.contains_key(key@) {
                law_absent_key(old(self)@, key@);
            }
        }
        match removed {
            Some((_, prior)) => Ok(prior),
            None => Err(MyError::NotFound { key: slice_to_vec(key) }),
        }
    }
}

} // verus!
