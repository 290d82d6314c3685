//! A store of accounts kept by a database of `revm`.

use crate::evm_state::{Account, Address};
use primitive_types::U256;
use revm::primitives::AccountStatus;
use revm::{Database, DatabaseCommit};
use vstd::bytes::{
    lemma_auto_spec_u64_to_from_le_bytes, spec_u64_from_le_bytes, spec_u64_to_le_bytes,
    u64_to_le_bytes,
};
use vstd::prelude::*;
use vstd::std_specs::convert::FromSpecImpl;

verus! {

/// The word that the eight bytes from place `8 * word` on spell, the least significant first.
pub open spec fn word_at(bytes: Seq<u8>, word: int) -> u64 {
    spec_u64_from_le_bytes(bytes.subrange(8 * word, 8 * word + 8))
}

/// Whether `number` is what the 32 bytes spell, the least significant byte first.
pub open spec fn spells(bytes: Seq<u8>, number: U256) -> bool {
    forall|word: int| 0 <= word < 4 ==> #[trigger] number.0[word] == word_at(bytes, word)
}

/// Whether `number` is zero.
pub open spec fn is_zero(number: U256) -> bool {
    forall|word: int| 0 <= word < 4 ==> #[trigger] number.0[word] == 0
}

/// What a database of `revm` holds of an account: the nonce, and the balance and the hash of
/// the code as 32 bytes each, the least significant first.
#[derive(Debug, Clone, Copy, PartialEq, Eq)]
pub struct AccountInfo {
    pub nonce: u64,
    pub balance: [u8; 32],
    pub code_hash: [u8; 32],
}

/// The status flags of an account in `revm`.
#[verifier::external_type_specification]
#[verifier::external_body]
pub struct ExAccountStatus(AccountStatus);

/// `U256::from_little_endian` of `primitive_types`, on 32 bytes: each word of the number is
/// read from eight of the bytes in turn.
#[verifier::external_body]
fn u256_from_little_endian(bytes: &[u8; 32]) -> (number: U256)
    ensures
        spells(bytes@, number),
{
    U256::from_little_endian(bytes)
}

/// `U256::zero` of `primitive_types`: the number whose four words are zero.
pub assume_specification[ U256::zero ]() -> (zero: U256)
    ensures
        is_zero(zero),
;

/// `revm::primitives::AccountStatus::Touched`: the mark of an account that is to be saved.
#[verifier::external_body]
fn touched() -> AccountStatus {
    AccountStatus::Touched
}

/// `revm::Database::basic`: what the database holds of the account under `address`, if it
/// holds any and could be asked. The answer is the database's own.
#[verifier::external_body]
fn database_basic<D: Database>(database: &mut D, address: &Address) -> Result<
    Option<AccountInfo>,
    (),
> {
    database.basic(revm::primitives::Address::from(address)).map(
        |found| found.map(
            |info| AccountInfo {
                nonce: info.nonce,
                balance: info.balance.to_le_bytes(),
                code_hash: info.code_hash.0,
            },
        ),
    ).map_err(|_| ())
}

/// `revm::DatabaseCommit::commit`, with one change: the account under `address`, with no
/// code and no storage of its own. What the database makes of it is the database's own.
#[verifier::external_body]
fn database_commit<D: DatabaseCommit>(
    database: &mut D,
    address: Address,
    info: AccountInfo,
    status: AccountStatus,
) {
    let info = revm::primitives::AccountInfo {
        balance: revm::primitives::U256::from_le_bytes(info.balance),
        nonce: info.nonce,
        code_hash: revm::primitives::B256::from(info.code_hash),
        code: None,
    };
    let account = revm::primitives::Account { info, storage: Default::default(), status };
    let mut changes = revm::primitives::HashMap::default();
    changes.insert(revm::primitives::Address::from(address), account);
    database.commit(changes)
}

/// The 32 bytes that spell `number`, the least significant byte first.
pub fn little_endian(number: &U256) -> (bytes: [u8; 32])
    ensures
        spells(bytes@, *number),
{
    let mut bytes = [0u8; 32];
    let mut word: usize = 0;
    while word < 4
        invariant
            word <= 4,
            forall|w: int|
                0 <= w < word ==> bytes@.subrange(8 * w, 8 * w + 8) == spec_u64_to_le_bytes(
                    #[trigger] number.0[w],
                ),
        decreases 4 - word,
    {
        let spelt = u64_to_le_bytes(number.0[word]);
        proof {
            lemma_auto_spec_u64_to_from_le_bytes();
        }
        let ghost filled = bytes@;
        let mut at: usize = 0;
        while at < 8
            invariant
                at <= 8,
                word < 4,
                spelt@.len() == 8,
                forall|i: int| 0 <= i < 8 * word ==> bytes@[i] == filled[i],
                forall|i: int| 0 <= i < at ==> bytes@[8 * word + i] == spelt@[i],
            decreases 8 - at,
        {
            bytes[8 * word + at] = spelt[at];
            at += 1;
        }
        proof {
            assert(bytes@.subrange(8 * word, 8 * word + 8) =~= spelt@);
            assert forall|w: int| 0 <= w < word implies bytes@.subrange(8 * w, 8 * w + 8)
                == spec_u64_to_le_bytes(#[trigger] number.0[w]) by {
                assert(bytes@.subrange(8 * w, 8 * w + 8) =~= filled.subrange(8 * w, 8 * w + 8));
            }
        }
        word += 1;
    }
    proof {
        lemma_auto_spec_u64_to_from_le_bytes();
    }
    bytes
}

impl From<AccountInfo> for Account {
    /// The account that a database's record stands for. The record holds no storage root:
    /// that of the account is zero.
    fn from(value: AccountInfo) -> (account: Self)
        ensures
            account.nonce == value.nonce,
            spells(value.balance@, account.balance),
            spells(value.code_hash@, account.code_hash),
            is_zero(account.storage_root),
    {
        Self {
            nonce: value.nonce,
            balance: u256_from_little_endian(&value.balance),
            code_hash: u256_from_little_endian(&value.code_hash),
            storage_root: U256::zero(),
        }
    }
}

impl FromSpecImpl<AccountInfo> for Account {
    open spec fn obeys_from_spec() -> bool {
        false
    }

    open spec fn from_spec(value: AccountInfo) -> Self {
        arbitrary()
    }
}

impl From<Account> for AccountInfo {
    /// The record that a database keeps of an account: all of it but the storage root.
    fn from(value: Account) -> (info: Self)
        ensures
            info.nonce == value.nonce,
            spells(info.balance@, value.balance),
            spells(info.code_hash@, value.code_hash),
    {
        Self {
            nonce: value.nonce,
            balance: little_endian(&value.balance),
            code_hash: little_endian(&value.code_hash),
        }
    }
}

impl FromSpecImpl<Account> for AccountInfo {
    open spec fn obeys_from_spec() -> bool {
        false
    }

    open spec fn from_spec(value: Account) -> Self {
        arbitrary()
    }
}

/// Thirty-two bytes spell one number only.
pub proof fn spelling_is_unique(bytes: Seq<u8>, one: U256, other: U256)
    requires
        spells(bytes, one),
        spells(bytes, other),
    ensures
        one == other,
{
    assert(one.0 =~= other.0);
}

/// A number is spelt by one sequence of thirty-two bytes only.
pub proof fn number_is_spelt_once(one: Seq<u8>, other: Seq<u8>, number: U256)
    requires
        one.len() == 32,
        other.len() == 32,
        spells(one, number),
        spells(other, number),
    ensures
        one == other,
{
    lemma_auto_spec_u64_to_from_le_bytes();
    assert forall|i: int| 0 <= i < 32 implies one[i] == other[i] by {
        let word = i / 8;
        let left = one.subrange(8 * word, 8 * word + 8);
        let right = other.subrange(8 * word, 8 * word + 8);
        assert(number.0[word] == word_at(one, word));
        assert(number.0[word] == word_at(other, word));
        assert(spec_u64_to_le_bytes(spec_u64_from_le_bytes(left)) == left);
        assert(spec_u64_to_le_bytes(spec_u64_from_le_bytes(right)) == right);
        assert(left[i - 8 * word] == one[i]);
        assert(right[i - 8 * word] == other[i]);
    }
    assert(one =~= other);
}

/// From an account to its record and back, the nonce, the balance and the hash of the code
/// are as they were, and the storage root is zero.
pub proof fn account_there_and_back(account: Account, info: AccountInfo, back: Account)
    requires
        info.nonce == account.nonce,
        spells(info.balance@, account.balance),
        spells(info.code_hash@, account.code_hash),
        back.nonce == info.nonce,
        spells(info.balance@, back.balance),
        spells(info.code_hash@, back.code_hash),
        is_zero(back.storage_root),
    ensures
        back.nonce == account.nonce,
        back.balance == account.balance,
        back.code_hash == account.code_hash,
        is_zero(account.storage_root) ==> back == account,
{
    spelling_is_unique(info.balance@, account.balance, back.balance);
    spelling_is_unique(info.code_hash@, account.code_hash, back.code_hash);
    if is_zero(account.storage_root) {
        assert(account.storage_root.0 =~= back.storage_root.0);
    }
}

/// From a record to its account and back, the record is as it was.
pub proof fn record_there_and_back(info: AccountInfo, account: Account, back: AccountInfo)
    requires
        account.nonce == info.nonce,
        spells(info.balance@, account.balance),
        spells(info.code_hash@, account.code_hash),
        back.nonce == account.nonce,
        spells(back.balance@, account.balance),
        spells(back.code_hash@, account.code_hash),
    ensures
        back == info,
{
    number_is_spelt_once(info.balance@, back.balance@, account.balance);
    number_is_spelt_once(info.code_hash@, back.code_hash@, account.code_hash);
    assert(info.balance =~= back.balance);
    assert(info.code_hash =~= back.code_hash);
}

/// What a lookup returns for an answer of the database: the account that the record found
/// stands for, and nothing where the database found none or could not be asked.
pub fn found_account(answer: Result<Option<AccountInfo>, ()>) -> (found: Option<Account>)
    ensures
        match answer {
            Ok(Some(info)) => found matches Some(account) && account.nonce == info.nonce
                && spells(info.balance@, account.balance) && spells(
                info.code_hash@,
                account.code_hash,
            ) && is_zero(account.storage_root),
            _ => found is None,
        },
{
    match answer {
        Ok(Some(info)) => Some(Account::from(info)),
        _ => None,
    }
}

/// A store of accounts that a database of `revm` keeps.
#[derive(Debug, Clone, PartialEq)]
pub struct RevmStateRepository<D> {
    database: D,
}

impl<D> RevmStateRepository<D> {
    /// The database that keeps the accounts.
    pub closed spec fn database(&self) -> D {
        self.database
    }
}

impl<D: Database + DatabaseCommit> RevmStateRepository<D> {
    /// A store whose accounts `database` keeps.
    pub fn new(database: D) -> (repository: Self)
        ensures
            repository.database() == database,
    {
        Self { database }
    }

    /// Asks the database for the account under `address`. A failure of the database counts
    /// as no account. An account that is returned has no storage root.
    pub fn get(&mut self, address: &Address) -> (found: Option<Account>)
        ensures
            found matches Some(account) ==> is_zero(account.storage_root),
    {
        found_account(database_basic(&mut self.database, address))
    }

    /// Commits `account` to the database under `address`, marked as touched.
    pub fn replace(&mut self, address: Address, account: Account) {
        database_commit(&mut self.database, address, AccountInfo::from(account), touched())
    }
}

} // verus!
