//! A thread-safe cache with a choice of eviction policies, kept by `moka`.

use crate::cache::{lookup, within, Cache};
use crate::evm_state::{Account, Address};
use crate::factory::{moka_by_recency, EvictionPolicy};
use moka::policy::EvictionPolicy as MokaPolicy;
use moka::sync::Cache as Moka;
use vstd::prelude::*;

verus! {

/// The concurrent cache of `moka`, `moka::sync::Cache`.
#[verifier::external_type_specification]
#[verifier::external_body]
#[verifier::reject_recursive_types(K)]
#[verifier::reject_recursive_types(V)]
#[verifier::reject_recursive_types(S)]
pub struct ExMoka<K, V, S>(Moka<K, V, S>);

/// A `moka` cache of accounts by their addresses.
type MokaAccounts = Moka<Address, Account>;

/// The entries in the table of a `moka` cache: each key that `get` finds, with the value that
/// `get` returns for it.
///
/// This and what follows is said of a cache that [`moka_with`] built and that has one owner:
/// nothing expires by time, nothing is invalidated, and no clone of the cache is at work.
pub uninterp spec fn moka_entries(cache: MokaAccounts) -> Map<Address, Account>;

/// The number of entries that a `moka` cache was built to hold: its `max_capacity`.
pub uninterp spec fn moka_limit(cache: MokaAccounts) -> u64;

/// Whether a `moka` cache was built with the policy that evicts by recency alone.
pub uninterp spec fn moka_evicts_by_recency(cache: MokaAccounts) -> bool;

/// Builds a cache with `moka::sync::CacheBuilder`: `new` with the capacity, `eviction_policy`
/// with the policy, then `build`. The cache is empty, and holds the capacity and the policy
/// that it was given.
#[verifier::external_body]
fn moka_with(capacity: u64, policy: MokaPolicy) -> (built: MokaAccounts)
    ensures
        moka_entries(built) == (Map::<Address, Account>::empty()),
        moka_limit(built) == capacity,
        moka_evicts_by_recency(built) == moka_by_recency(policy),
{
    moka::sync::CacheBuilder::new(capacity).eviction_policy(policy).build()
}

/// `moka::sync::Cache::contains_key`: whether the table holds the key. Unlike `get` it is no
/// read of the cache: it records nothing and runs no maintenance, so the cache is as before.
#[verifier::external_body]
fn moka_contains_key(cache: &MokaAccounts, key: &Address) -> (hit: bool)
    ensures
        hit == moka_entries(*cache).contains_key(*key),
{
    cache.contains_key(key)
}

/// `moka::sync::Cache::get`: a clone of the value that the table holds under the key, or
/// nothing. After the lookup the read is recorded, and pending maintenance may run, which
/// evicts entries, the one just read among them, and adds none.
#[verifier::external_body]
fn moka_get(cache: &mut MokaAccounts, key: &Address) -> (found: Option<Account>)
    ensures
        found == lookup(moka_entries(*old(cache)), *key),
        within(moka_entries(*final(cache)), moka_entries(*old(cache))),
        moka_limit(*final(cache)) == moka_limit(*old(cache)),
        moka_evicts_by_recency(*final(cache)) == moka_evicts_by_recency(*old(cache)),
{
    cache.get(key)
}

/// `moka::sync::Cache::insert`: puts the value under the key into the table, in place of a
/// value held there. Pending maintenance may run before the write is handed to the policy,
/// which evicts other entries and adds none. The policy decides on the new entry in a later
/// call only, so that the entry is in the table when `insert` returns. A cache of capacity
/// zero takes nothing.
#[verifier::external_body]
fn moka_insert(cache: &mut MokaAccounts, key: Address, value: Account)
    ensures
        within(moka_entries(*final(cache)), moka_entries(*old(cache)).insert(key, value)),
        moka_limit(*old(cache)) > 0 ==> moka_entries(*final(cache)).contains_key(key),
        moka_limit(*final(cache)) == moka_limit(*old(cache)),
        moka_evicts_by_recency(*final(cache)) == moka_evicts_by_recency(*old(cache)),
{
    cache.insert(key, value)
}

/// A thread-safe cache of accounts with a fixed capacity and a chosen eviction policy.
///
/// The cache keeps an entry from the write until its policy evicts it. It evicts when it holds
/// more entries than its capacity, and not at once: the policy is run now and then, during a
/// later read or write.
pub struct ConcurrentCache {
    cache: MokaAccounts,
}

impl ConcurrentCache {
    /// The number of entries that the cache was built to hold.
    pub closed spec fn capacity(&self) -> nat {
        moka_limit(self.cache) as nat
    }

    /// The policy that the cache was built with.
    pub closed spec fn policy(&self) -> EvictionPolicy {
        if moka_evicts_by_recency(self.cache) {
            EvictionPolicy::LeastRecentlyUsed
        } else {
            EvictionPolicy::LeastFrequentlyUsed
        }
    }

    /// An empty cache for `capacity` entries that evicts by `policy`.
    pub(crate) fn new(capacity: usize, policy: EvictionPolicy) -> (cache: Self)
        ensures
            cache.valid() == (capacity > 0),
            cache.entries() == Map::<Address, Account>::empty(),
            cache.capacity() == capacity,
            cache.policy() == policy,
    {
        Self { cache: moka_with(capacity as u64, MokaPolicy::from(policy)) }
    }
}

impl Cache<Address, Account> for ConcurrentCache {
    /// A cache is valid where its capacity is not zero: a cache of capacity zero does not keep
    /// what is written to it.
    closed spec fn valid(&self) -> bool {
        moka_limit(self.cache) > 0
    }

    closed spec fn entries(&self) -> Map<Address, Account> {
        moka_entries(self.cache)
    }

    fn contains(&self, key: &Address) -> (hit: bool) {
        moka_contains_key(&self.cache, key)
    }

    fn read(&mut self, key: &Address) -> (found: Option<Account>) {
        moka_get(&mut self.cache, key)
    }

    fn write(&mut self, key: Address, value: Account) {
        moka_insert(&mut self.cache, key, value)
    }
}

} // verus!
