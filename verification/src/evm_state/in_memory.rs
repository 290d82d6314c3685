//! A store of accounts in memory, for one thread.

use crate::evm_state::{same_address, Account, Address, EvmStateRepository};
use vstd::prelude::*;

verus! {

/// Whether some record of `records` stands under `address`.
spec fn recorded(records: Seq<(Address, Account)>, address: Address) -> bool {
    exists|i: int| 0 <= i < records.len() && (#[trigger] records[i]).0 == address
}

/// The place of a record that stands under `address`.
spec fn place_of(records: Seq<(Address, Account)>, address: Address) -> int {
    choose|i: int| 0 <= i < records.len() && (#[trigger] records[i]).0 == address
}

/// Whether no two records of `records` stand under one address.
spec fn distinct(records: Seq<(Address, Account)>) -> bool {
    forall|i: int, j: int|
        0 <= i < j < records.len() ==> (#[trigger] records[i]).0 != (#[trigger] records[j]).0
}

/// The accounts that `records` holds, each under its address.
spec fn accounts_of(records: Seq<(Address, Account)>) -> Map<Address, Account> {
    Map::new(
        |address: Address| recorded(records, address),
        |address: Address| records[place_of(records, address)].1,
    )
}

/// A store of accounts kept in memory and used from one thread: fit for tests.
#[derive(Debug)]
pub struct InMemoryEvmStateRepository {
    accounts: Vec<(Address, Account)>,
}

impl InMemoryEvmStateRepository {
    /// A store that holds no account.
    pub fn new() -> (repository: Self)
        ensures
            repository.valid(),
            repository.accounts() == Map::<Address, Account>::empty(),
    {
        let repository = Self { accounts: Vec::new() };
        assert(repository.accounts() =~= Map::<Address, Account>::empty());
        repository
    }

    /// The place of the record under `address`, if there is one.
    fn find(&self, address: &Address) -> (place: Option<usize>)
        ensures
            match place {
                Some(i) => i < self.accounts.len() && self.accounts[i as int].0 == *address,
                None => !recorded(self.accounts@, *address),
            },
    {
        let mut at: usize = 0;
        while at < self.accounts.len()
            invariant
                at <= self.accounts.len(),
                forall|i: int| 0 <= i < at ==> (#[trigger] self.accounts[i]).0 != *address,
            decreases self.accounts.len() - at,
        {
            if same_address(&self.accounts[at].0, address) {
                return Some(at);
            }
            at += 1;
        }
        None
    }
}

impl Clone for InMemoryEvmStateRepository {
    /// A store of its own that holds the same accounts.
    fn clone(&self) -> (copy: Self)
        ensures
            copy.valid() == self.valid(),
            copy.accounts() == self.accounts(),
    {
        let mut accounts: Vec<(Address, Account)> = Vec::new();
        let mut at: usize = 0;
        while at < self.accounts.len()
            invariant
                at <= self.accounts.len(),
                accounts@ == self.accounts@.take(at as int),
            decreases self.accounts.len() - at,
        {
            accounts.push(self.accounts[at]);
            at += 1;
        }
        assert(accounts@ == self.accounts@);
        Self { accounts }
    }
}

impl Default for InMemoryEvmStateRepository {
    /// A store that holds no account.
    fn default() -> (repository: Self)
        ensures
            repository.valid(),
            repository.accounts() == Map::<Address, Account>::empty(),
    {
        Self::new()
    }
}

impl EvmStateRepository for InMemoryEvmStateRepository {
    closed spec fn valid(&self) -> bool {
        distinct(self.accounts@)
    }

    closed spec fn accounts(&self) -> Map<Address, Account> {
        accounts_of(self.accounts@)
    }

    fn get(&mut self, address: &Address) -> (found: Option<Account>) {
        match self.find(address) {
            Some(place) => Some(self.accounts[place].1),
            None => None,
        }
    }

    fn replace(&mut self, address: Address, account: Account) {
        let ghost before = self.accounts@;
        match self.find(&address) {
            Some(place) => {
                self.accounts.set(place, (address, account));
                proof {
                    lemma_set_record(before, place as int, account);
                }
            },
            None => {
                self.accounts.push((address, account));
                proof {
                    lemma_push_record(before, address, account);
                }
            },
        }
    }
}

/// In records that are distinct, the record at a place is the one found under its address.
proof fn lemma_record_at(records: Seq<(Address, Account)>, place: int)
    requires
        distinct(records),
        0 <= place < records.len(),
    ensures
        recorded(records, records[place].0),
        place_of(records, records[place].0) == place,
        accounts_of(records)[records[place].0] == records[place].1,
{
    let address = records[place].0;
    assert(recorded(records, address));
    let chosen = place_of(records, address);
    assert(0 <= chosen < records.len() && records[chosen].0 == address);
    if chosen < place {
        assert(records[chosen].0 != records[place].0);
    } else if place < chosen {
        assert(records[place].0 != records[chosen].0);
    }
}

/// Putting another account at the place of a record changes the account under that address
/// and no other.
proof fn lemma_set_record(before: Seq<(Address, Account)>, place: int, account: Account)
    requires
        distinct(before),
        0 <= place < before.len(),
    ensures
        distinct(before.update(place, (before[place].0, account))),
        accounts_of(before.update(place, (before[place].0, account))) == accounts_of(
            before,
        ).insert(before[place].0, account),
{
    let address = before[place].0;
    let after = before.update(place, (address, account));
    assert forall|i: int| 0 <= i < after.len() implies (#[trigger] after[i]).0 == before[i].0 by {}
    assert(distinct(after)) by {
        assert forall|i: int, j: int| 0 <= i < j < after.len() implies (#[trigger] after[i]).0 != (
        #[trigger] after[j]).0 by {
            assert(before[i].0 != before[j].0);
        }
    }
    let wanted = accounts_of(before).insert(address, account);
    assert forall|key: Address| accounts_of(after).contains_key(key) == wanted.contains_key(
        key,
    ) by {
        if recorded(after, key) {
            let i = place_of(after, key);
            assert(before[i].0 == key);
        }
        if recorded(before, key) {
            let i = place_of(before, key);
            assert(after[i].0 == key);
        }
        assert(after[place].0 == address);
    }
    assert forall|key: Address| accounts_of(after).contains_key(key) implies accounts_of(
        after,
    )[key] == wanted[key] by {
        let i = place_of(after, key);
        lemma_record_at(after, i);
        if key != address {
            assert(i != place);
            assert(before[i].0 == key);
            lemma_record_at(before, i);
        } else {
            lemma_record_at(after, place);
        }
    }
    assert(accounts_of(after) =~= wanted);
}

/// Adding a record under an address that has none changes the account under that address and
/// no other.
proof fn lemma_push_record(before: Seq<(Address, Account)>, address: Address, account: Account)
    requires
        distinct(before),
        !recorded(before, address),
    ensures
        distinct(before.push((address, account))),
        accounts_of(before.push((address, account))) == accounts_of(before).insert(
            address,
            account,
        ),
{
    let after = before.push((address, account));
    let last = before.len() as int;
    assert(after[last].0 == address);
    assert forall|i: int| 0 <= i < before.len() implies (#[trigger] after[i]) == before[i] by {}
    assert(distinct(after)) by {
        assert forall|i: int, j: int| 0 <= i < j < after.len() implies (#[trigger] after[i]).0 != (
        #[trigger] after[j]).0 by {
            if j < last {
                assert(before[i].0 != before[j].0);
            } else {
                assert(before[i].0 != address);
            }
        }
    }
    let wanted = accounts_of(before).insert(address, account);
    assert forall|key: Address| accounts_of(after).contains_key(key) == wanted.contains_key(
        key,
    ) by {
        if recorded(after, key) {
            let i = place_of(after, key);
            if i < last {
                assert(before[i].0 == key);
            }
        }
        if recorded(before, key) {
            let i = place_of(before, key);
            assert(after[i].0 == key);
        }
    }
    assert forall|key: Address| accounts_of(after).contains_key(key) implies accounts_of(
        after,
    )[key] == wanted[key] by {
        let i = place_of(after, key);
        lemma_record_at(after, i);
        if key != address {
            assert(i != last);
            assert(before[i].0 == key);
            lemma_record_at(before, i);
        } else {
            lemma_record_at(after, last);
        }
    }
    assert(accounts_of(after) =~= wanted);
}

} // verus!
