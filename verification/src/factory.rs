//! The builder of caches, and the choice of eviction policy.

use crate::cache::concurrent::ConcurrentCache;
use crate::cache::Cache;
use crate::evm_state::{Account, Address};
use moka::policy::EvictionPolicy as MokaPolicy;
use std::marker::PhantomData;
use vstd::prelude::*;
use vstd::std_specs::convert::FromSpecImpl;

verus! {

/// The rule by which a full cache chooses which entries to admit and which to give up.
#[derive(Debug, Clone, Copy, PartialEq, Eq, Structural)]
pub enum EvictionPolicy {
    /// Gives up the entry that was used least recently.
    LeastRecentlyUsed,
    /// Gives up, or does not admit, the entry that is used least often.
    LeastFrequentlyUsed,
}

/// The eviction policy of `moka`, `moka::policy::EvictionPolicy`.
#[verifier::external_type_specification]
#[verifier::external_body]
pub struct ExMokaPolicy(MokaPolicy);

/// Whether a `moka` policy evicts by recency alone (`lru`), not by frequency (`tiny_lfu`).
pub uninterp spec fn moka_by_recency(policy: MokaPolicy) -> bool;

/// `moka::policy::EvictionPolicy::lru` returns the policy that evicts the least recently used
/// entry.
pub assume_specification[ MokaPolicy::lru ]() -> (policy: MokaPolicy)
    ensures
        moka_by_recency(policy),
;

/// `moka::policy::EvictionPolicy::tiny_lfu` returns the policy that admits and evicts by an
/// estimate of how often each key is used.
pub assume_specification[ MokaPolicy::tiny_lfu ]() -> (policy: MokaPolicy)
    ensures
        !moka_by_recency(policy),
;

impl From<EvictionPolicy> for MokaPolicy {
    /// The policy of `moka` that stands for `value`.
    fn from(value: EvictionPolicy) -> (policy: Self)
        ensures
            moka_by_recency(policy) == (value == EvictionPolicy::LeastRecentlyUsed),
    {
        match value {
            EvictionPolicy::LeastRecentlyUsed => MokaPolicy::lru(),
            EvictionPolicy::LeastFrequentlyUsed => MokaPolicy::tiny_lfu(),
        }
    }
}

impl FromSpecImpl<EvictionPolicy> for MokaPolicy {
    open spec fn obeys_from_spec() -> bool {
        false
    }

    open spec fn from_spec(value: EvictionPolicy) -> Self {
        arbitrary()
    }
}

/// How far a builder has come: which of its two parameters are set.
pub trait BuilderState {
    /// Whether the capacity is set.
    spec fn capacity_set() -> bool;

    /// Whether the eviction policy is set.
    spec fn policy_set() -> bool;
}

/// A state in which the eviction policy is set.
pub trait HasPolicy: BuilderState {
    proof fn policy_is_set()
        ensures
            Self::policy_set(),
    ;
}

/// A state in which the capacity is set.
pub trait HasCapacity: BuilderState {
    proof fn capacity_is_set()
        ensures
            Self::capacity_set(),
    ;
}

/// The state reached from `T` by setting the capacity.
#[derive(Debug, Default)]
pub struct WithCapacity<T>(PhantomData<T>);

/// The state reached from `T` by setting the eviction policy.
#[derive(Debug, Default)]
pub struct WithPolicy<T>(PhantomData<T>);

impl BuilderState for () {
    open spec fn capacity_set() -> bool {
        false
    }

    open spec fn policy_set() -> bool {
        false
    }
}

impl<T: BuilderState> BuilderState for WithCapacity<T> {
    open spec fn capacity_set() -> bool {
        true
    }

    open spec fn policy_set() -> bool {
        T::policy_set()
    }
}

impl<T: BuilderState> BuilderState for WithPolicy<T> {
    open spec fn capacity_set() -> bool {
        T::capacity_set()
    }

    open spec fn policy_set() -> bool {
        true
    }
}

impl<State: BuilderState> BuilderState for CacheBuilder<State> {
    open spec fn capacity_set() -> bool {
        State::capacity_set()
    }

    open spec fn policy_set() -> bool {
        State::policy_set()
    }
}

impl HasPolicy for WithPolicy<()> {
    proof fn policy_is_set() {
    }
}

impl HasCapacity for WithCapacity<()> {
    proof fn capacity_is_set() {
    }
}

impl<State: HasPolicy> HasCapacity for WithCapacity<State> {
    proof fn capacity_is_set() {
    }
}

impl<State: HasPolicy> HasPolicy for WithCapacity<State> {
    proof fn policy_is_set() {
        State::policy_is_set();
    }
}

impl<State: HasCapacity> HasPolicy for WithPolicy<State> {
    proof fn policy_is_set() {
    }
}

impl<State: HasCapacity> HasCapacity for WithPolicy<State> {
    proof fn capacity_is_set() {
        State::capacity_is_set();
    }
}

impl<State: HasPolicy> HasPolicy for CacheBuilder<State> {
    proof fn policy_is_set() {
        State::policy_is_set();
    }
}

impl<State: HasCapacity> HasCapacity for CacheBuilder<State> {
    proof fn capacity_is_set() {
        State::capacity_is_set();
    }
}

/// Collects the parameters of a cache, one call at a time, and builds the cache once the
/// capacity and the eviction policy are both set.
#[derive(Debug)]
pub struct CacheBuilder<State: BuilderState> {
    _phantom: PhantomData<State>,
    capacity: Option<usize>,
    policy: Option<EvictionPolicy>,
}

impl CacheBuilder<()> {
    /// A builder with no parameter set.
    pub fn new() -> (builder: Self)
        ensures
            builder.capacity() is None,
            builder.policy() is None,
    {
        Self { _phantom: PhantomData, capacity: None, policy: None }
    }
}

impl Default for CacheBuilder<()> {
    /// A builder with no parameter set.
    fn default() -> (builder: Self)
        ensures
            builder.capacity() is None,
            builder.policy() is None,
    {
        Self::new()
    }
}

impl<State: BuilderState> CacheBuilder<State> {
    /// What the state says is set, is set.
    #[verifier::type_invariant]
    spec fn as_its_state_says(self) -> bool {
        &&& State::capacity_set() ==> self.capacity is Some
        &&& State::policy_set() ==> self.policy is Some
    }

    /// The capacity that was set last, if any was.
    pub closed spec fn capacity(&self) -> Option<usize> {
        self.capacity
    }

    /// The eviction policy that was set last, if any was.
    pub closed spec fn policy(&self) -> Option<EvictionPolicy> {
        self.policy
    }

    /// Sets the eviction policy of the cache.
    pub fn with_eviction_policy(self, policy: EvictionPolicy) -> (next: CacheBuilder<
        WithPolicy<State>,
    >)
        ensures
            next.policy() == Some(policy),
            next.capacity() == self.capacity(),
    {
        proof {
            use_type_invariant(&self);
        }
        CacheBuilder::<WithPolicy<State>> {
            _phantom: PhantomData,
            capacity: self.capacity,
            policy: Some(policy),
        }
    }

    /// Sets the number of entries that the cache holds at most.
    pub fn with_capacity(self, capacity: usize) -> (next: CacheBuilder<WithCapacity<State>>)
        ensures
            next.capacity() == Some(capacity),
            next.policy() == self.policy(),
    {
        proof {
            use_type_invariant(&self);
        }
        CacheBuilder::<WithCapacity<State>> {
            _phantom: PhantomData,
            capacity: Some(capacity),
            policy: self.policy,
        }
    }
}

impl<State: HasCapacity + HasPolicy> CacheBuilder<State> {
    /// Builds an empty cache with the capacity and the eviction policy that were set.
    ///
    /// A cache of capacity zero keeps nothing, not even what was just written, and so is no
    /// valid cache.
    pub fn build(self) -> (cache: ConcurrentCache)
        ensures
            self.capacity() matches Some(capacity) && cache.capacity() == capacity,
            self.policy() == Some(cache.policy()),
            cache.valid() == (cache.capacity() > 0),
            cache.entries() == Map::<Address, Account>::empty(),
    {
        proof {
            use_type_invariant(&self);
            State::capacity_is_set();
            State::policy_is_set();
        }
        ConcurrentCache::new(self.capacity.unwrap(), self.policy.unwrap())
    }
}

/// A state from which a cache can be built has the capacity and the eviction policy set.
pub proof fn buildable_is_complete<State: HasCapacity + HasPolicy>()
    ensures
        State::capacity_set(),
        State::policy_set(),
{
    State::capacity_is_set();
    State::policy_is_set();
}

/// A new builder has nothing set; one call sets one parameter and leaves the other unset; the
/// two calls, in either order, set both.
pub proof fn states_count_what_is_set()
    ensures
        !<() as BuilderState>::capacity_set() && !<() as BuilderState>::policy_set(),
        WithCapacity::<()>::capacity_set() && !WithCapacity::<()>::policy_set(),
        WithPolicy::<()>::policy_set() && !WithPolicy::<()>::capacity_set(),
        WithPolicy::<WithCapacity<()>>::capacity_set() && WithPolicy::<
            WithCapacity<()>,
        >::policy_set(),
        WithCapacity::<WithPolicy<()>>::capacity_set() && WithCapacity::<
            WithPolicy<()>,
        >::policy_set(),
{
}

} // verus!
