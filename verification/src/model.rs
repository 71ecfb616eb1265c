//! The mathematical model of a store: a map from byte sequences to byte
//! sequences, and what each operation yields on it.

use vstd::prelude::*;

verus! {

/// What a store is, to a contract: each present key with its one value.
pub type Entries = Map<Seq<u8>, Seq<u8>>;

/// The value kept under `key`, if there is one.
pub open spec fn stored(entries: Entries, key: Seq<u8>) -> Option<Seq<u8>> {
    if entries.contains_key(key) {
        Some(entries[key])
    } else {
        None
    }
}

/// What a strict removal of `key` yields: the value that was kept under it,
/// or the key itself as the complaint when nothing was.
pub open spec fn strictly_removed(entries: Entries, key: Seq<u8>) -> Result<Seq<u8>, Seq<u8>> {
    if entries.contains_key(key) {
        Ok(entries[key])
    } else {
        Err(key)
    }
}

/// The bytes held by an optional owned value.
pub open spec fn bytes_of(value: Option<Vec<u8>>) -> Option<Seq<u8>> {
    match value {
        Some(bytes) => Some(bytes@),
        None => None,
    }
}

} // verus!
