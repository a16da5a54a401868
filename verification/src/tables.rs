//! The hash tables of `ahash` that the registries are kept in.
//!
//! Nothing in this file is proved: each contract restates what the table's
//! documentation says of the method it wraps. The keys are plain numbers,
//! and `ahash` is built with fixed hasher keys, so that making a table asks
//! nothing of the operating system and cannot fail.

use vstd::prelude::*;
use ahash::AHashMap;
use crate::callbacks::Callback;

verus! {

/// `ahash::AHashMap`, carried as an opaque value.
#[verifier::external_type_specification]
#[verifier::external_body]
#[verifier::reject_recursive_types(K)]
#[verifier::reject_recursive_types(V)]
#[verifier::reject_recursive_types(S)]
pub struct ExAHashMap<K, V, S>(AHashMap<K, V, S>);

/// `ahash::RandomState`, the hasher state that an `AHashMap` is built with.
#[verifier::external_type_specification]
#[verifier::external_body]
pub struct ExRandomState(ahash::RandomState);

/// The key-value pairs that a table of handles holds.
pub uninterp spec fn handle_entries(table: AHashMap<u32, u64>) -> Map<u32, u64>;

/// `AHashMap::new`: the new table holds nothing.
#[verifier::external_body]
pub(crate) fn handles_new() -> (table: AHashMap<u32, u64>)
    ensures
        handle_entries(table) =~= Map::empty(),
{
    AHashMap::new()
}

/// `AHashMap::insert`: the key maps to the new value afterwards and every
/// other key is untouched; the value that the key had before is returned.
/// The call does not panic.
#[verifier::external_body]
pub(crate) fn handles_insert(table: &mut AHashMap<u32, u64>, key: u32, value: u64) -> (previous: Option<u64>)
    ensures
        handle_entries(*final(table)) == handle_entries(*old(table)).insert(key, value),
        previous == if handle_entries(*old(table)).contains_key(key) {
            Some(handle_entries(*old(table))[key])
        } else {
            None
        },
    no_unwind
{
    table.insert(key, value)
}

/// `AHashMap::get`: the value under the key, if the table holds the key.
#[verifier::external_body]
pub(crate) fn handles_get(table: &AHashMap<u32, u64>, key: u32) -> (found: Option<u64>)
    ensures
        found == if handle_entries(*table).contains_key(key) {
            Some(handle_entries(*table)[key])
        } else {
            None
        },
{
    table.get(&key).copied()
}

/// The callbacks that a table holds, each under its number.
pub uninterp spec fn callback_entries(table: AHashMap<u32, Callback>) -> Map<u32, Callback>;

/// `AHashMap::new`: the new table holds nothing.
#[verifier::external_body]
pub(crate) fn callbacks_new() -> (table: AHashMap<u32, Callback>)
    ensures
        callback_entries(table) =~= Map::empty(),
{
    AHashMap::new()
}

/// `AHashMap::insert`: the key maps to the new value afterwards and every
/// other key is untouched; the value that the key had before is returned.
/// The call does not panic.
#[verifier::external_body]
pub(crate) fn callbacks_insert(table: &mut AHashMap<u32, Callback>, key: u32, value: Callback) -> (previous: Option<Callback>)
    ensures
        callback_entries(*final(table)) == callback_entries(*old(table)).insert(key, value),
        previous == if callback_entries(*old(table)).contains_key(key) {
            Some(callback_entries(*old(table))[key])
        } else {
            None
        },
    no_unwind
{
    table.insert(key, value)
}

/// `AHashMap::remove`: the table no longer holds the key and keeps every
/// other; the value that the key had before is returned. The call does not
/// panic.
#[verifier::external_body]
pub(crate) fn callbacks_remove(table: &mut AHashMap<u32, Callback>, key: u32) -> (removed: Option<Callback>)
    ensures
        callback_entries(*final(table)) == callback_entries(*old(table)).remove(key),
        removed == if callback_entries(*old(table)).contains_key(key) {
            Some(callback_entries(*old(table))[key])
        } else {
            None
        },
    no_unwind
{
    table.remove(&key)
}

} // verus!
