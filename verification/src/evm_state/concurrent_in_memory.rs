//! A store of accounts in memory that `dashmap` keeps, fit for use from many threads.

use crate::cache::lookup;
use crate::evm_state::{Account, Address, EvmStateRepository};
use dashmap::DashMap;
use vstd::prelude::*;

verus! {

/// The concurrent hash map of `dashmap`.
#[verifier::external_type_specification]
#[verifier::external_body]
#[verifier::reject_recursive_types(K)]
#[verifier::reject_recursive_types(V)]
#[verifier::reject_recursive_types(S)]
pub struct ExDashMap<K, V, S>(DashMap<K, V, S>);

/// The entries that a `DashMap` holds: each key with the value that stands under it.
pub uninterp spec fn dashmap_entries(map: DashMap<Address, Account>) -> Map<Address, Account>;

/// `DashMap::new`: a map that holds nothing.
#[verifier::external_body]
fn dashmap_new() -> (map: DashMap<Address, Account>)
    ensures
        dashmap_entries(map) == (Map::<Address, Account>::empty()),
{
    DashMap::new()
}

/// `DashMap::get`: a copy of the value that stands under the key, or nothing where the map
/// has no such key. The map is left as it is.
#[verifier::external_body]
fn dashmap_get(map: &DashMap<Address, Account>, key: &Address) -> (found: Option<Account>)
    ensures
        found == lookup(dashmap_entries(*map), *key),
{
    map.get(key).map(|entry| *entry.value())
}

/// `DashMap::insert`: the value stands under the key afterwards, and every other key keeps
/// what it had. The map is taken by `&mut`, so no reference into it is held during the call.
#[verifier::external_body]
fn dashmap_insert(map: &mut DashMap<Address, Account>, key: Address, value: Account)
    ensures
        dashmap_entries(*final(map)) == dashmap_entries(*old(map)).insert(key, value),
{
    map.insert(key, value);
}

/// `DashMap::clone`: a map of its own that holds the same entries.
#[verifier::external_body]
fn dashmap_clone(map: &DashMap<Address, Account>) -> (copy: DashMap<Address, Account>)
    ensures
        dashmap_entries(copy) == dashmap_entries(*map),
{
    map.clone()
}

/// A store of accounts kept in memory by a concurrent hash map.
#[derive(Debug)]
pub struct ConcurrentInMemoryEvmStateRepository {
    accounts: DashMap<Address, Account>,
}

impl ConcurrentInMemoryEvmStateRepository {
    /// A store that holds no account.
    pub fn new() -> (repository: Self)
        ensures
            repository.valid(),
            repository.accounts() == Map::<Address, Account>::empty(),
    {
        Self { accounts: dashmap_new() }
    }
}

impl Clone for ConcurrentInMemoryEvmStateRepository {
    /// A store of its own that holds the same accounts.
    fn clone(&self) -> (copy: Self)
        ensures
            copy.valid(),
            copy.accounts() == self.accounts(),
    {
        Self { accounts: dashmap_clone(&self.accounts) }
    }
}

impl EvmStateRepository for ConcurrentInMemoryEvmStateRepository {
    open spec fn valid(&self) -> bool {
        true
    }

    closed spec fn accounts(&self) -> Map<Address, Account> {
        dashmap_entries(self.accounts)
    }

    fn get(&mut self, address: &Address) -> (found: Option<Account>) {
        dashmap_get(&self.accounts, address)
    }

    fn replace(&mut self, address: Address, account: Account) {
        dashmap_insert(&mut self.accounts, address, account)
    }
}

} // verus!
