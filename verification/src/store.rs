//! An append-only key/value store, the registry's model of the host's
//! persistent storage namespace.
//!
//! Records are immutable-by-replacement: a write appends an entry, and a
//! later entry for a key shadows every earlier one. The view of a store is
//! the map from each key to the record last written under it.

use vstd::prelude::*;

verus! {

/// The map denoted by a sequence of writes, later writes shadowing earlier
/// ones.
pub open spec fn written<V>(s: Seq<(u64, V)>) -> Map<u64, V>
    decreases s.len(),
{
    if s.len() == 0 {
        Map::empty()
    } else {
        written(s.drop_last()).insert(s.last().0, s.last().1)
    }
}

/// An append-only key/value store, viewed as the map from each key to the
/// record last written under it.
pub struct Store<V> {
    entries: Vec<(u64, V)>,
}

impl<V> View for Store<V> {
    type V = Map<u64, V>;

    closed spec fn view(&self) -> Map<u64, V> {
        written(self.entries@)
    }
}

impl<V: Copy> Store<V> {
    /// An empty store: no key has a record.
    pub fn new() -> (r: Self)
        ensures
            r@ == Map::<u64, V>::empty(),
    {
        Store { entries: Vec::new() }
    }

    /// Write `value` under `key`, replacing whatever record the key had.
    pub fn set(&mut self, key: u64, value: V)
        ensures
            final(self)@ == old(self)@.insert(key, value),
    {
        self.entries.push((key, value));
        proof {
            assert(self.entries@.drop_last() =~= old(self).entries@);
            assert(written(self.entries@) == written(old(self).entries@).insert(key, value));
        }
    }

    /// The record last written under `key`, if the key has one.
    pub fn get(&self, key: u64) -> (r: Option<V>)
        ensures
            self@.contains_key(key) ==> r == Some(self@[key]),
            !self@.contains_key(key) ==> r is None,
    {
        let n: usize = self.entries.len();
        proof {
            assert(self.entries@.take(n as int) =~= self.entries@);
        }
        let mut i: usize = n;
        while i > 0
            invariant
                i <= n,
                n == self.entries@.len(),
                written(self.entries@).contains_key(key) == written(
                    self.entries@.take(i as int),
                ).contains_key(key),
                written(self.entries@).contains_key(key) ==> written(
                    self.entries@.take(i as int),
                )[key] == written(self.entries@)[key],
            decreases i,
        {
            i = i - 1;
            proof {
                let s = self.entries@;
                let t = s.take(i as int + 1);
                assert(t.drop_last() =~= s.take(i as int));
                assert(t.last() == s[i as int]);
                assert(written(t) == written(s.take(i as int)).insert(s[i as int].0, s[i as int].1));
            }
            if self.entries[i].0 == key {
                return Some(self.entries[i].1);
            }
        }
        proof {
            assert(self.entries@.take(0) =~= Seq::<(u64, V)>::empty());
            assert(written(self.entries@.take(0)) == Map::<u64, V>::empty());
        }
        None
    }
}

} // verus!
