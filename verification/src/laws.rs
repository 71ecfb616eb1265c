//! What holds of every store, whatever it holds and whatever the key: the
//! laws that relate the operations to one another.
//!
//! Each law is stated over the entries that a store's view gives, in the
//! terms of the operations' own contracts: `set` leaves `insert` of the
//! entries behind, both removals leave `remove`, `get` and `ensure_del` hand
//! back `stored`, and `del` hands back `strictly_removed`.

use crate::model::{stored, strictly_removed, Entries};
use vstd::prelude::*;

verus! {

/// A store that was just opened holds nothing under any key.
pub proof fn law_new_store_holds_nothing(key: Seq<u8>)
    ensures
        stored(Entries::empty(), key) == None::<Seq<u8>>,
{
}

/// Round trip: after a value is set under a key, a get of that key returns
/// that value.
pub proof fn law_set_then_get(entries: Entries, key: Seq<u8>, value: Seq<u8>)
    ensures
        stored(entries.insert(key, value), key) == Some(value),
{
}

/// Overwriting: a second set of the same key hands back the first value, and
/// a get afterwards returns the second.
pub proof fn law_overwrite_returns_prior(
    entries: Entries,
    key: Seq<u8>,
    first: Seq<u8>,
    second: Seq<u8>,
)
    ensures
        stored(entries.insert(key, first), key) == Some(first),
        stored(entries.insert(key, first).insert(key, second), key) == Some(second),
        entries.insert(key, first).insert(key, second) == entries.insert(key, second),
{
    assert(entries.insert(key, first).insert(key, second) =~= entries.insert(key, second));
}

/// Absence: of a key that is not in the store, a get returns nothing, the
/// lenient removal returns nothing and changes nothing, and the strict removal
/// fails with that key.
pub proof fn law_absent_key(entries: Entries, key: Seq<u8>)
    requires
        !entries.contains_key(key),
    ensures
        stored(entries, key) == None::<Seq<u8>>,
        entries.remove(key) == entries,
        strictly_removed(entries, key) == Err::<Seq<u8>, Seq<u8>>(key),
{
    assert(entries.remove(key) =~= entries);
}

/// Removal removes: after a value is set under a key, a strict removal of the
/// key succeeds with that value, and a get afterwards returns nothing.
pub proof fn law_delete_removes(entries: Entries, key: Seq<u8>, value: Seq<u8>)
    ensures
        strictly_removed(entries.insert(key, value), key) == Ok::<Seq<u8>, Seq<u8>>(value),
        stored(entries.insert(key, value).remove(key), key) == None::<Seq<u8>>,
{
}

/// The lenient removal is idempotent: whatever the first one returned, a
/// second one of the same key returns nothing and leaves the store as the
/// first left it.
pub proof fn law_second_lenient_removal_finds_nothing(entries: Entries, key: Seq<u8>)
    ensures
        stored(entries.remove(key), key) == None::<Seq<u8>>,
        entries.remove(key).remove(key) == entries.remove(key),
{
    assert(entries.remove(key).remove(key) =~= entries.remove(key));
}

/// A second strict removal fails: after a value is set under a key, the first
/// strict removal returns the value and the second fails with the key.
pub proof fn law_second_strict_removal_fails(entries: Entries, key: Seq<u8>, value: Seq<u8>)
    ensures
        strictly_removed(entries.insert(key, value), key) == Ok::<Seq<u8>, Seq<u8>>(value),
        strictly_removed(entries.insert(key, value).remove(key), key) == Err::<
            Seq<u8>,
            Seq<u8>,
        >(key),
{
}

/// One key, one value, and no key touches another: setting or removing one
/// key leaves what is stored under every other key as it was.
pub proof fn law_other_keys_untouched(
    entries: Entries,
    key: Seq<u8>,
    value: Seq<u8>,
    other: Seq<u8>,
)
    requires
        other != key,
    ensures
        stored(entries.insert(key, value), other) == stored(entries, other),
        stored(entries.remove(key), other) == stored(entries, other),
{
}

} // verus!
