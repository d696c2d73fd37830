//! Map-contains checks over a map's entries (key, value), keys distinct as in
//! a map.

use vstd::prelude::*;
use vstd::laws_eq::obeys_concrete_eq;
use vstd::std_specs::cmp::PartialEqSpec;

verus! {

/// Why a map-contains check failed.
#[derive(Debug, Clone, Copy, PartialEq, Eq, Structural)]
pub enum MapContainsFailure {
    /// No entry has the key.
    MissingKey,
    /// The key is bound to a different value.
    WrongValue,
}

/// Some entry of `entries` has key `key`.
pub open spec fn has_key<K, V>(entries: Seq<(K, V)>, key: K) -> bool {
    exists|i: int| 0 <= i < entries.len() && entries[i].0 == key
}

/// Some entry of `entries` binds `key` to `value`.
pub open spec fn has_entry<K, V>(entries: Seq<(K, V)>, key: K, value: V) -> bool {
    exists|i: int| 0 <= i < entries.len() && entries[i].0 == key && entries[i].1 == value
}

/// No key occurs in two entries.
pub open spec fn keys_unique<K, V>(entries: Seq<(K, V)>) -> bool {
    forall|i: int, j: int| 0 <= i < j < entries.len() ==> entries[i].0 != entries[j].0
}

/// The position of the first entry whose key equals `key`.
fn find_key<K: PartialEq, V>(entries: &Vec<(K, V)>, key: &K) -> (r: Option<usize>)
    ensures
        match r {
            Some(i) => i < entries@.len() && (K::obeys_eq_spec() ==> entries@[i as int].0.eq_spec(
                key,
            )),
            None => K::obeys_eq_spec() ==> forall|j: int|
                0 <= j < entries@.len() ==> !entries@[j].0.eq_spec(key),
        },
{
    let n = entries.len();
    let mut i: usize = 0;
    while i < n
        invariant
            n == entries@.len(),
            i <= n,
            K::obeys_eq_spec() ==> forall|j: int| 0 <= j < i ==> !entries@[j].0.eq_spec(key),
        decreases n - i,
    {
        if entries[i].0 == *key {
            return Some(i);
        }
        i = i + 1;
    }
    None
}

/// Checks that the map with these entries binds `key` to `value`. Stated for
/// key and value types whose `==` is equality of values, as the integer
/// types' is.
pub fn assert_map_contains<K: PartialEq, V: PartialEq>(entries: &Vec<(K, V)>, key: &K, value: &V) -> (r:
    Result<(), MapContainsFailure>)
    requires
        keys_unique(entries@),
    ensures
        obeys_concrete_eq::<K>() ==> (r == Err::<(), MapContainsFailure>(
            MapContainsFailure::MissingKey,
        ) <==> !has_key(entries@, *key)),
        obeys_concrete_eq::<K>() && obeys_concrete_eq::<V>() ==> (r is Ok <==> has_entry(
            entries@,
            *key,
            *value,
        )),
{
    proof {
        reveal(obeys_concrete_eq);
    }
    match find_key(entries, key) {
        None => Err(MapContainsFailure::MissingKey),
        Some(i) => {
            if entries[i].1 == *value {
                Ok(())
            } else {
                Err(MapContainsFailure::WrongValue)
            }
        },
    }
}

/// Checks that the map with these entries has `key`. Stated for key types
/// whose `==` is equality of values.
pub fn assert_map_contains_key<K: PartialEq, V>(entries: &Vec<(K, V)>, key: &K) -> (r: Result<
    (),
    MapContainsFailure,
>)
    ensures
        obeys_concrete_eq::<K>() ==> (r is Ok <==> has_key(entries@, *key)),
        r is Err ==> r == Err::<(), MapContainsFailure>(MapContainsFailure::MissingKey),
{
    proof {
        reveal(obeys_concrete_eq);
    }
    match find_key(entries, key) {
        None => Err(MapContainsFailure::MissingKey),
        Some(_) => Ok(()),
    }
}

} // verus!
