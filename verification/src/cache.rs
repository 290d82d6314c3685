//! The contract of a key-value cache, and the caches that this crate provides.

pub mod concurrent;

use vstd::prelude::*;

verus! {

/// What a lookup of `key` gives in `entries`: the value held under the key, or nothing.
pub open spec fn lookup<K, V>(entries: Map<K, V>, key: K) -> Option<V> {
    if entries.contains_key(key) {
        Some(entries[key])
    } else {
        None
    }
}

/// Whether every entry of `part` is an entry of `whole`: the same key with the same value.
pub open spec fn within<K, V>(part: Map<K, V>, whole: Map<K, V>) -> bool {
    forall|key: K| #[trigger]
        part.dom().contains(key) ==> whole.dom().contains(key) && part[key] == whole[key]
}

/// Whether a cache that held `before` may hold `after` when a write of `value` under `key`
/// returns: the entry written is there, and beside it nothing that was not there before.
pub open spec fn after_write<K, V>(before: Map<K, V>, key: K, value: V, after: Map<K, V>) -> bool {
    after.contains_key(key) && within(after, before.insert(key, value))
}

/// A fast key-value store of bounded size.
///
/// A cache is spoken of through the entries it holds. A read is a hit where the key has an
/// entry and a miss where it has none. A cache may give up entries whenever it reads or
/// writes, by a policy of its own, but it never makes one up and never alters one: after a
/// read it holds no more than before, and after a write no more than before and the entry
/// written. The entry written is there when the write returns.
///
/// Reads and writes take the cache by `&mut`: who calls them has the cache to themselves for
/// the length of the call.
pub trait Cache<K, V> {
    /// Whether the cache is in a state in which it can be used. Its operations keep it so.
    /// A cache that does not say is always valid.
    open spec fn valid(&self) -> bool {
        true
    }

    /// The entries held: each key that a read hits, with the value that the read returns.
    /// A cache that does not say what it holds is spoken of through a map that nothing is
    /// known of.
    open spec fn entries(&self) -> Map<K, V> {
        arbitrary()
    }

    /// Tells whether a read of `key` would hit. The cache is left as it is: asking is no use
    /// of the entry.
    fn contains(&self, key: &K) -> (hit: bool)
        requires
            self.valid(),
        ensures
            hit == self.entries().contains_key(*key),
    ;

    /// Returns a copy of the value held under `key`, or nothing on a miss. The cache may give
    /// up entries on the way.
    fn read(&mut self, key: &K) -> (found: Option<V>)
        requires
            old(self).valid(),
        ensures
            final(self).valid(),
            found == lookup(old(self).entries(), *key),
            within(final(self).entries(), old(self).entries()),
    ;

    /// Stores `value` under `key`, in place of any value held under it before. The cache may
    /// give up other entries on the way.
    fn write(&mut self, key: K, value: V)
        requires
            old(self).valid(),
        ensures
            final(self).valid(),
            after_write(old(self).entries(), key, value, final(self).entries()),
    ;
}

} // verus!
