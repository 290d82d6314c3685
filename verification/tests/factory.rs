use evm_state_cache::{Account, Cache, CacheBuilder, EvictionPolicy};
use primitive_types::U256;

#[test]
fn test_builder_creates_cache_with_desired_capacity_that_evicts_lru() {
    let mut cache = CacheBuilder::new()
        .with_capacity(1)
        .with_eviction_policy(EvictionPolicy::LeastRecentlyUsed)
        .build();
    let first_address = [0u8; 20];
    let first_account = Account::new(0, U256::zero(), U256::zero(), U256::zero());
    let second_address = [1u8; 20];
    let second_account = Account::new(1, U256::zero(), U256::zero(), U256::zero());

    cache.write(first_address, first_account);
    cache.write(second_address, second_account);

    for _ in 0..100 {
        cache.read(&first_address);
        cache.read(&second_address);
    }

    assert!(
        cache.read(&second_address).is_some(),
        "Cache does not contain most recently used entry"
    );
    assert!(
        cache.read(&first_address).is_none(),
        "Cache contains evicted entry"
    );
}

#[test]
fn test_builder_creates_cache_with_desired_capacity_that_evicts_lfu() {
    let mut cache = CacheBuilder::new()
        .with_eviction_policy(EvictionPolicy::LeastFrequentlyUsed)
        .with_capacity(1)
        .build();
    let first_address = [0u8; 20];
    let first_account = Account::new(0, U256::zero(), U256::zero(), U256::zero());
    let second_address = [1u8; 20];
    let second_account = Account::new(1, U256::zero(), U256::zero(), U256::zero());

    cache.write(first_address, first_account.clone());
    cache.write(first_address, first_account);
    cache.write(second_address, second_account);

    for _ in 0..100 {
        cache.read(&first_address);
        cache.read(&second_address);
    }

    assert!(
        cache.read(&second_address).is_none(),
        "Cache contains evicted entry"
    );
    assert!(
        cache.read(&first_address).is_some(),
        "Cache does not contain most frequently used entry"
    );
}

fn address(byte: u8) -> [u8; 20] {
    [byte; 20]
}

fn account(nonce: u64) -> Account {
    Account::new(nonce, U256::from(nonce), U256::zero(), U256::zero())
}

#[test]
fn new_cache_holds_nothing() {
    let mut cache = CacheBuilder::new()
        .with_capacity(4)
        .with_eviction_policy(EvictionPolicy::LeastRecentlyUsed)
        .build();

    assert!(!cache.contains(&address(1)));
    assert_eq!(cache.read(&address(1)), None);
}

#[test]
fn write_is_there_when_it_returns_and_replaces_the_value_before() {
    for policy in [
        EvictionPolicy::LeastRecentlyUsed,
        EvictionPolicy::LeastFrequentlyUsed,
    ] {
        let mut cache = CacheBuilder::new()
            .with_eviction_policy(policy)
            .with_capacity(2)
            .build();

        for nonce in 0..500u64 {
            let key = address((nonce % 7) as u8);
            cache.write(key, account(nonce));
            assert!(cache.contains(&key), "{policy:?}, write {nonce}");
            assert_eq!(cache.read(&key), Some(account(nonce)), "{policy:?}, write {nonce}");
        }
    }
}

#[test]
fn contains_tells_what_the_next_read_returns() {
    let mut cache = CacheBuilder::new()
        .with_capacity(1)
        .with_eviction_policy(EvictionPolicy::LeastFrequentlyUsed)
        .build();

    for nonce in 0..400u64 {
        cache.write(address((nonce % 3) as u8), account(nonce));
        for byte in 0u8..3 {
            let hit = cache.contains(&address(byte));
            assert_eq!(cache.read(&address(byte)).is_some(), hit);
        }
    }
}

#[test]
fn read_returns_a_copy_that_the_cache_does_not_follow() {
    let mut cache = CacheBuilder::new()
        .with_capacity(4)
        .with_eviction_policy(EvictionPolicy::LeastRecentlyUsed)
        .build();
    cache.write(address(1), account(1));

    let mut copy = cache.read(&address(1)).unwrap();
    copy.nonce = 99;

    assert_eq!(cache.read(&address(1)), Some(account(1)));
}

#[test]
fn one_key_more_than_the_capacity_evicts_the_least_recently_used() {
    let capacity = 3u8;
    let mut cache = CacheBuilder::new()
        .with_capacity(capacity as usize)
        .with_eviction_policy(EvictionPolicy::LeastRecentlyUsed)
        .build();

    for byte in 1..=capacity + 1 {
        cache.write(address(byte), account(byte as u64));
    }
    for _ in 0..100 {
        for byte in 2..=capacity + 1 {
            cache.read(&address(byte));
        }
    }

    assert!(!cache.contains(&address(1)));
    let kept = (1..=capacity + 1)
        .filter(|byte| cache.contains(&address(*byte)))
        .count();
    assert_eq!(kept, capacity as usize);
    for byte in 2..=capacity + 1 {
        assert_eq!(cache.read(&address(byte)), Some(account(byte as u64)));
    }
}

#[test]
fn capacity_that_is_set_last_counts() {
    let mut cache = CacheBuilder::new()
        .with_capacity(1)
        .with_capacity(2)
        .with_eviction_policy(EvictionPolicy::LeastRecentlyUsed)
        .with_capacity(1);
    let _ = &mut cache;
}

#[test]
fn cache_of_capacity_zero_keeps_nothing() {
    let mut cache = CacheBuilder::new()
        .with_capacity(0)
        .with_eviction_policy(EvictionPolicy::LeastRecentlyUsed)
        .build();

    cache.write(address(1), account(1));

    assert!(!cache.contains(&address(1)));
    assert_eq!(cache.read(&address(1)), None);
}

#[test]
fn default_builder_builds_like_a_new_one() {
    let mut cache = CacheBuilder::default()
        .with_eviction_policy(EvictionPolicy::LeastFrequentlyUsed)
        .with_capacity(5)
        .build();

    cache.write(address(1), account(1));
    cache.write(address(2), account(2));

    assert_eq!(cache.read(&address(1)), Some(account(1)));
    assert_eq!(cache.read(&address(2)), Some(account(2)));
    assert_eq!(cache.read(&address(3)), None);
}
