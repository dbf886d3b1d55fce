//! The concurrent hash map that stores the users, and what is taken on
//! trust about it.
//!
//! The map is only ever reached through an exclusive borrow of the state
//! that owns it, so each operation sees the map as the previous one left it.

use crate::user::{User, UserView};
use dashmap::DashMap;
use vstd::prelude::*;

verus! {

#[verifier::external_type_specification]
#[verifier::external_body]
#[verifier::reject_recursive_types(K)]
#[verifier::reject_recursive_types(V)]
#[verifier::reject_recursive_types(S)]
pub struct ExDashMap<K, V, S>(DashMap<K, V, S>);

/// What a table holds: the stored users, by key.
pub uninterp spec fn table_entries(table: DashMap<u128, User>) -> Map<u128, UserView>;

/// `DashMap::new`: a map that holds nothing.
#[verifier::external_body]
pub(crate) fn table_new() -> (table: DashMap<u128, User>)
    ensures
        table_entries(table) == (Map::<u128, UserView>::empty()),
{
    DashMap::new()
}

/// `DashMap::insert`: stores the value under the key, in place of any value
/// that the key had, and returns that earlier value.
#[verifier::external_body]
pub(crate) fn table_insert(table: &mut DashMap<u128, User>, key: u128, value: User) -> (previous:
    Option<User>)
    ensures
        table_entries(*final(table)) == table_entries(*old(table)).insert(key, value@),
        previous is Some <==> table_entries(*old(table)).contains_key(key),
        previous matches Some(p) ==> p@ == table_entries(*old(table))[key],
{
    table.insert(key, value)
}

/// `DashMap::remove`: takes the key and its value out of the map, and
/// returns the value if the key was there.
#[verifier::external_body]
pub(crate) fn table_remove(table: &mut DashMap<u128, User>, key: u128) -> (removed: Option<User>)
    ensures
        table_entries(*final(table)) == table_entries(*old(table)).remove(key),
        removed is Some <==> table_entries(*old(table)).contains_key(key),
        removed matches Some(u) ==> u@ == table_entries(*old(table))[key],
{
    match table.remove(&key) {
        Some((_, user)) => Some(user),
        None => None,
    }
}

/// `DashMap::iter`, each item copied out: every stored key with its value,
/// each key once, in an order that is not specified.
#[verifier::external_body]
pub(crate) fn table_snapshot(table: &DashMap<u128, User>) -> (items: Vec<(u128, User)>)
    ensures
        forall|i: int|
            0 <= i < items.len() ==> table_entries(*table).contains_pair(
                (#[trigger] items[i]).0,
                items[i].1@,
            ),
        forall|i: int, j: int|
            0 <= i < j < items.len() ==> (#[trigger] items[i]).0 != (#[trigger] items[j]).0,
        forall|k: u128| #[trigger]
            table_entries(*table).contains_key(k) ==> exists|i: int|
                0 <= i < items.len() && (#[trigger] items[i]).0 == k,
{
    table.iter().map(|item| (*item.key(), item.value().clone())).collect()
}

} // verus!
