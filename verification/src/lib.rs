//! Read and write access to EVM account state through a cache.
//!
//! A store of accounts answers to [`EvmStateRepository`], a cache to [`Cache`].
//! [`CachedEvmStateRepository`] puts a cache in front of a store: it reads from the cache
//! first, fills the cache from the store on a miss, and writes to the store and then to the
//! cache. [`CacheBuilder`] builds the cache once it has been given a capacity and an eviction
//! policy.
//!
//! ```
//! use evm_state_cache::{
//!     Account, CacheBuilder, CachedEvmStateRepository, EvictionPolicy,
//!     InMemoryEvmStateRepository,
//! };
//! use primitive_types::U256;
//!
//! let cache = CacheBuilder::new()
//!     .with_capacity(10)
//!     .with_eviction_policy(EvictionPolicy::LeastRecentlyUsed)
//!     .build();
//! let mut repository = CachedEvmStateRepository::new(InMemoryEvmStateRepository::new(), cache);
//!
//! let account = Account::new(1, U256::from(100), U256::zero(), U256::zero());
//! repository.replace([0u8; 20], account);
//! assert_eq!(repository.get(&[0u8; 20]), Some(account));
//! ```

pub mod cache;
pub mod evm_state;
pub mod factory;

pub use cache::concurrent::ConcurrentCache;
pub use cache::Cache;
pub use evm_state::cached::CachedEvmStateRepository;
pub use evm_state::concurrent_in_memory::ConcurrentInMemoryEvmStateRepository;
pub use evm_state::in_memory::InMemoryEvmStateRepository;
pub use evm_state::ledger::{AccountInfo, RevmStateRepository};
pub use evm_state::{Account, Address, EvmStateRepository};
pub use factory::{
    BuilderState, CacheBuilder, EvictionPolicy, HasCapacity, HasPolicy, WithCapacity, WithPolicy,
};
