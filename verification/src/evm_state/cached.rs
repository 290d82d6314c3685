//! A store of accounts with a cache in front of it.

use crate::cache::{after_write, lookup, within, Cache};
use crate::evm_state::{Account, Address, EvmStateRepository};
use vstd::prelude::*;

verus! {

/// What a read through a cache returns for `address`: the cached account where the cache has
/// one, else the stored account, else nothing.
pub open spec fn read_through(
    cached: Map<Address, Account>,
    stored: Map<Address, Account>,
    address: Address,
) -> Option<Account> {
    if cached.contains_key(address) {
        Some(cached[address])
    } else {
        lookup(stored, address)
    }
}

/// The most that a cache may hold after a read through it for `address`: what it held, and,
/// where the read had to go to the store and found an account there, that account.
pub open spec fn populated(
    cached: Map<Address, Account>,
    stored: Map<Address, Account>,
    address: Address,
) -> Map<Address, Account> {
    if !cached.contains_key(address) && stored.contains_key(address) {
        cached.insert(address, stored[address])
    } else {
        cached
    }
}

/// A store of accounts that answers from a cache first, and keeps the cache filled with what
/// it reads from and writes to the store behind it.
pub struct CachedEvmStateRepository<InnerRepository: EvmStateRepository, C: Cache<Address, Account>> {
    cache: C,
    inner: InnerRepository,
}

impl<InnerRepository: EvmStateRepository, C: Cache<Address, Account>> CachedEvmStateRepository<
    InnerRepository,
    C,
> {
    /// The accounts that the store behind the cache holds.
    pub closed spec fn stored(&self) -> Map<Address, Account> {
        self.inner.accounts()
    }

    /// The accounts that the cache holds.
    pub closed spec fn cached(&self) -> Map<Address, Account> {
        self.cache.entries()
    }

    /// Whether the store and the cache are both in a valid state.
    pub closed spec fn well_formed(&self) -> bool {
        self.inner.valid() && self.cache.valid()
    }

    /// Whether every cached account is the one that the store holds under the same address.
    pub open spec fn coherent(&self) -> bool {
        within(self.cached(), self.stored())
    }

    /// Puts `cache` in front of `repository`.
    pub fn new(repository: InnerRepository, cache: C) -> (cached: Self)
        requires
            repository.valid(),
            cache.valid(),
        ensures
            cached.well_formed(),
            cached.stored() == repository.accounts(),
            cached.cached() == cache.entries(),
    {
        Self { inner: repository, cache }
    }

    /// Returns the account under `address`: from the cache on a hit; on a miss from the
    /// store, and then the account is written to the cache and read back from it. The store
    /// is left as it is. The cache gains at most that one entry, and on a miss at both layers
    /// it is left as it is.
    pub fn get(&mut self, address: &Address) -> (found: Option<Account>)
        requires
            old(self).well_formed(),
        ensures
            final(self).well_formed(),
            found == read_through(old(self).cached(), old(self).stored(), *address),
            final(self).stored() == old(self).stored(),
            within(
                final(self).cached(),
                populated(old(self).cached(), old(self).stored(), *address),
            ),
            found is None ==> final(self).cached() == old(self).cached(),
            final(self).cached().contains_key(*address) ==> lookup(
                final(self).cached(),
                *address,
            ) == found,
            old(self).coherent() ==> final(self).coherent() && found == lookup(
                old(self).stored(),
                *address,
            ),
    {
        if !self.cache.contains(address) {
            match self.inner.get(address) {
                Some(account) => {
                    self.cache.write(*address, account);
                },
                None => return None,
            }
        }
        self.cache.read(address)
    }

    /// Puts `account` under `address` in the store first and in the cache second.
    pub fn replace(&mut self, address: Address, account: Account)
        requires
            old(self).well_formed(),
        ensures
            final(self).well_formed(),
            final(self).stored() == old(self).stored().insert(address, account),
            after_write(old(self).cached(), address, account, final(self).cached()),
            lookup(final(self).stored(), address) == Some(account),
            lookup(final(self).cached(), address) == Some(account),
            old(self).coherent() ==> final(self).coherent(),
    {
        self.inner.replace(address, account);
        self.cache.write(address, account);
    }
}

/// A cached store whose cache agrees with the store is itself a store of accounts: it holds
/// what the store behind the cache holds, and answers as that store would.
impl<InnerRepository: EvmStateRepository, C: Cache<Address, Account>> EvmStateRepository for CachedEvmStateRepository<
    InnerRepository,
    C,
> {
    open spec fn valid(&self) -> bool {
        self.well_formed() && self.coherent()
    }

    open spec fn accounts(&self) -> Map<Address, Account> {
        self.stored()
    }

    fn get(&mut self, address: &Address) -> (found: Option<Account>) {
        CachedEvmStateRepository::get(self, address)
    }

    fn replace(&mut self, address: Address, account: Account) {
        CachedEvmStateRepository::replace(self, address, account)
    }
}

/// Cache first: where the cache holds an account under the address, a read through it returns
/// that account, whatever the store holds there.
pub proof fn cache_first(
    cached: Map<Address, Account>,
    stored: Map<Address, Account>,
    address: Address,
    account: Account,
)
    requires
        cached.contains_key(address),
        cached[address] == account,
    ensures
        read_through(cached, stored, address) == Some(account),
{
}

/// Fallback and populate: where the cache holds nothing under the address and the store holds
/// an account there, a read through the cache returns that account. Afterwards the cache
/// holds no more than it held and that account; where it still holds the address, it answers
/// a read with the same account.
pub proof fn fallback_and_populate(
    cached: Map<Address, Account>,
    stored: Map<Address, Account>,
    address: Address,
    account: Account,
    afterwards: Map<Address, Account>,
)
    requires
        !cached.contains_key(address),
        stored.contains_key(address),
        stored[address] == account,
        within(afterwards, populated(cached, stored, address)),
        afterwards.contains_key(address),
    ensures
        read_through(cached, stored, address) == Some(account),
        lookup(afterwards, address) == Some(account),
{
}

/// Double miss: where neither the cache nor the store holds anything under the address, a
/// read through the cache returns nothing, and the cache, which holds no more afterwards than
/// it held, holds nothing under the address.
pub proof fn double_miss(
    cached: Map<Address, Account>,
    stored: Map<Address, Account>,
    address: Address,
    afterwards: Map<Address, Account>,
)
    requires
        !cached.contains_key(address),
        !stored.contains_key(address),
        within(afterwards, populated(cached, stored, address)),
    ensures
        read_through(cached, stored, address) is None,
        !afterwards.contains_key(address),
{
}

/// Write-through: once an account was put under the address in the store and written to the
/// cache, a lookup in the store and a read of the cache both return that account, whatever
/// the cache held before and whatever it gave up for the write.
pub proof fn write_through(
    cached: Map<Address, Account>,
    stored: Map<Address, Account>,
    address: Address,
    account: Account,
    afterwards: Map<Address, Account>,
)
    requires
        after_write(cached, address, account, afterwards),
    ensures
        lookup(stored.insert(address, account), address) == Some(account),
        lookup(afterwards, address) == Some(account),
{
}

/// A cache that agrees with the store is not seen: a read through it returns what the store
/// holds, and what the read may leave in the cache agrees with the store again.
pub proof fn coherent_cache_is_transparent(
    cached: Map<Address, Account>,
    stored: Map<Address, Account>,
    address: Address,
)
    requires
        within(cached, stored),
    ensures
        read_through(cached, stored, address) == lookup(stored, address),
        within(populated(cached, stored, address), stored),
{
}

} // verus!
