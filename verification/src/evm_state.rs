//! The account record, its address, and the contract of a store of accounts.

pub mod cached;
pub mod concurrent_in_memory;
pub mod in_memory;
pub mod ledger;

use crate::cache::lookup;
use primitive_types::U256;
use vstd::prelude::*;

verus! {

/// An Ethereum address: the twenty bytes that identify an [`Account`].
pub type Address = [u8; 20];

/// The 256-bit unsigned integer of `primitive_types`: four words of 64 bits, the least
/// significant first.
#[verifier::external_type_specification]
pub struct ExU256(U256);

/// An Ethereum account: its nonce, its balance and the hashes of its code and its storage.
///
/// An account is a plain value. Each holder has a copy of its own, and no copy changes with
/// another.
#[derive(Debug, Clone, Copy, PartialEq)]
pub struct Account {
    pub nonce: u64,
    pub balance: U256,
    pub code_hash: U256,
    pub storage_root: U256,
}

impl Account {
    /// An account made of the four given parts.
    pub fn new(nonce: u64, balance: U256, code_hash: U256, storage_root: U256) -> (account: Self)
        ensures
            account.nonce == nonce,
            account.balance == balance,
            account.code_hash == code_hash,
            account.storage_root == storage_root,
    {
        Self { nonce, balance, code_hash, storage_root }
    }
}

/// Tells whether two addresses are the same twenty bytes.
pub fn same_address(left: &Address, right: &Address) -> (same: bool)
    ensures
        same == (*left == *right),
{
    let mut at: usize = 0;
    while at < 20
        invariant
            at <= 20,
            forall|i: int| 0 <= i < at ==> left[i] == right[i],
        decreases 20 - at,
    {
        if left[at] != right[at] {
            return false;
        }
        at += 1;
    }
    assert(*left =~= *right);
    true
}

/// A store of accounts by their addresses: the system of record.
///
/// A store is spoken of through the accounts it holds. A lookup changes nothing, and a
/// replacement changes the account under one address and no other.
pub trait EvmStateRepository {
    /// Whether the store is in a state in which it can be used. Its operations keep it so.
    /// A store that does not say is always valid.
    open spec fn valid(&self) -> bool {
        true
    }

    /// The accounts held, each under its address. A store that does not say what it holds is
    /// spoken of through a map that nothing is known of.
    open spec fn accounts(&self) -> Map<Address, Account> {
        arbitrary()
    }

    /// Returns the account held under `address`, or nothing where the store holds none.
    fn get(&mut self, address: &Address) -> (found: Option<Account>)
        requires
            old(self).valid(),
        ensures
            final(self).valid(),
            final(self).accounts() == old(self).accounts(),
            found == lookup(old(self).accounts(), *address),
    ;

    /// Puts `account` under `address`, whether or not the store held one there.
    fn replace(&mut self, address: Address, account: Account)
        requires
            old(self).valid(),
        ensures
            final(self).valid(),
            final(self).accounts() == old(self).accounts().insert(address, account),
    ;
}

} // verus!
