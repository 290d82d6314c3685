use evm_state_cache::evm_state::ledger::{found_account, little_endian};
use evm_state_cache::{
    Account, AccountInfo, Address, Cache, CacheBuilder, CachedEvmStateRepository, EvictionPolicy,
    EvmStateRepository, RevmStateRepository,
};
use primitive_types::{H160, U256};
use revm::InMemoryDB;

#[test]
fn revm_test_account_by_existent_address_from_repository_is_found() {
    let mut repository = RevmStateRepository::new(InMemoryDB::default());

    repository.replace(
        Address::from(H160::zero()),
        Account::new(0, U256::zero(), U256::zero(), U256::zero()),
    );

    let actual_account = repository.get(&Address::from(H160::zero()));
    let expected_account = Account::new(
        0,
        U256::zero(),
        U256::from_dec_str(
            "50949722399999162638671808714117529995988557342659710791111524410371378434757",
        )
        .unwrap(),
        U256::zero(),
    );

    assert!(actual_account.is_some(), "Account not found");

    let actual_account = actual_account.unwrap();

    assert_eq!(expected_account, actual_account);
}

#[test]
fn revm_test_account_by_non_existent_address_from_repository_is_not_found() {
    let mut repository = RevmStateRepository::new(InMemoryDB::default());

    let actual_account = repository.get(&Address::from(H160::zero()));

    assert!(
        actual_account.is_none(),
        "Account found but none was present"
    );
}

fn counting_bytes() -> [u8; 32] {
    let mut bytes = [0u8; 32];
    for (at, byte) in bytes.iter_mut().enumerate() {
        *byte = at as u8 + 1;
    }
    bytes
}

#[test]
fn account_of_a_record_reads_the_bytes_least_significant_first() {
    let mut one = [0u8; 32];
    one[0] = 1;
    let info = AccountInfo {
        nonce: 3,
        balance: one,
        code_hash: counting_bytes(),
    };

    let account = Account::from(info);

    assert_eq!(account.nonce, 3);
    assert_eq!(account.balance, U256::from(1));
    assert_eq!(
        account.code_hash,
        U256([
            0x0807060504030201,
            0x100f0e0d0c0b0a09,
            0x1817161514131211,
            0x201f1e1d1c1b1a19,
        ])
    );
    assert_eq!(account.storage_root, U256::zero());
}

#[test]
fn record_of_an_account_spells_the_words_least_significant_first() {
    let account = Account::new(
        9,
        U256::from(0x0102u64),
        U256([
            0x0807060504030201,
            0x100f0e0d0c0b0a09,
            0x1817161514131211,
            0x201f1e1d1c1b1a19,
        ]),
        U256::from(77),
    );

    let info = AccountInfo::from(account);

    let mut balance = [0u8; 32];
    balance[0] = 2;
    balance[1] = 1;
    assert_eq!(
        info,
        AccountInfo {
            nonce: 9,
            balance,
            code_hash: counting_bytes(),
        }
    );
}

#[test]
fn little_endian_of_the_largest_number_is_all_ones() {
    assert_eq!(little_endian(&U256::MAX), [0xffu8; 32]);
    assert_eq!(little_endian(&U256::zero()), [0u8; 32]);
    let mut high = [0u8; 32];
    high[31] = 0x80;
    assert_eq!(little_endian(&(U256::from(1) << 255)), high);
}

#[test]
fn record_and_account_go_back_and_forth_but_for_the_storage_root() {
    let account = Account::new(
        5,
        U256::from_dec_str("123456789012345678901234567890123456789").unwrap(),
        U256::MAX - U256::from(12345),
        U256::from(4),
    );

    let back = Account::from(AccountInfo::from(account));

    assert_eq!(
        back,
        Account::new(5, account.balance, account.code_hash, U256::zero())
    );
}

#[test]
fn found_account_is_nothing_for_no_record_and_for_a_failure() {
    assert_eq!(found_account(Ok(None)), None);
    assert_eq!(found_account(Err(())), None);
    let info = AccountInfo {
        nonce: 1,
        balance: [0u8; 32],
        code_hash: [0u8; 32],
    };
    assert_eq!(
        found_account(Ok(Some(info))),
        Some(Account::new(1, U256::zero(), U256::zero(), U256::zero()))
    );
}

#[test]
fn revm_replace_keeps_nonce_and_balance_and_drops_the_storage_root() {
    let mut repository = RevmStateRepository::new(InMemoryDB::default());
    let balance = U256::from_dec_str("1000000000000000000000").unwrap();
    let code_hash = U256([1, 2, 3, 4]);

    repository.replace([1u8; 20], Account::new(7, balance, code_hash, U256::from(5)));
    repository.replace([2u8; 20], Account::new(8, U256::from(1), code_hash, U256::zero()));

    assert_eq!(
        repository.get(&[1u8; 20]),
        Some(Account::new(7, balance, code_hash, U256::zero()))
    );
    assert_eq!(
        repository.get(&[2u8; 20]),
        Some(Account::new(8, U256::from(1), code_hash, U256::zero()))
    );
    assert_eq!(repository.get(&[3u8; 20]), None);
}

struct Ledger(RevmStateRepository<InMemoryDB>);

impl EvmStateRepository for Ledger {
    fn get(&mut self, address: &Address) -> Option<Account> {
        self.0.get(address)
    }

    fn replace(&mut self, address: Address, account: Account) {
        self.0.replace(address, account)
    }
}

#[test]
fn database_behind_a_cache_is_read_through_and_written_through() {
    let code_hash = U256([1, 2, 3, 4]);
    let mut ledger = Ledger(RevmStateRepository::new(InMemoryDB::default()));
    ledger.replace([1u8; 20], Account::new(1, U256::from(10), code_hash, U256::zero()));
    let mut cache = CacheBuilder::new()
        .with_capacity(10)
        .with_eviction_policy(EvictionPolicy::LeastRecentlyUsed)
        .build();
    cache.write([2u8; 20], Account::new(2, U256::from(20), code_hash, U256::zero()));
    let mut repository = CachedEvmStateRepository::new(ledger, cache);

    assert_eq!(
        repository.get(&[1u8; 20]),
        Some(Account::new(1, U256::from(10), code_hash, U256::zero()))
    );
    assert_eq!(
        repository.get(&[2u8; 20]),
        Some(Account::new(2, U256::from(20), code_hash, U256::zero()))
    );
    assert_eq!(repository.get(&[3u8; 20]), None);

    repository.replace([3u8; 20], Account::new(3, U256::from(30), code_hash, U256::from(9)));

    assert_eq!(
        repository.get(&[3u8; 20]),
        Some(Account::new(3, U256::from(30), code_hash, U256::from(9)))
    );
}
