//! A verified association map, the storage primitive of the contracts.
//!
//! Entries live in a vector; an insert appends, and later entries shadow
//! earlier ones, so the abstract value is a `Map` and every operation is
//! specified against it.

use vstd::prelude::*;

verus! {

/// A key of an [`AssocMap`]: `key_eq` must decide spec-level equality.
pub trait AssocKey: Sized + Copy {
    fn key_eq(&self, other: &Self) -> (r: bool)
        ensures
            r == (*self == *other),
    ;
}

impl AssocKey for u64 {
    fn key_eq(&self, other: &Self) -> (r: bool) {
        *self == *other
    }
}

impl AssocKey for u128 {
    fn key_eq(&self, other: &Self) -> (r: bool) {
        *self == *other
    }
}

/// A composite key, for storage keyed by a pair.
#[derive(Clone, Copy, PartialEq, Eq, Debug)]
pub struct KeyPair<A, B> {
    pub fst: A,
    pub snd: B,
}

impl<A: AssocKey, B: AssocKey> AssocKey for KeyPair<A, B> {
    fn key_eq(&self, other: &Self) -> (r: bool) {
        self.fst.key_eq(&other.fst) && self.snd.key_eq(&other.snd)
    }
}

/// The map denoted by a sequence of entries, later entries shadowing earlier
/// ones.
pub open spec fn map_of<K, V>(s: Seq<(K, V)>) -> Map<K, V>
    decreases s.len(),
{
    if s.len() == 0 {
        Map::empty()
    } else {
        map_of(s.drop_last()).insert(s.last().0, s.last().1)
    }
}

proof fn lemma_absent_key<K, V>(s: Seq<(K, V)>, k: K)
    requires
        forall|j: int| 0 <= j < s.len() ==> (#[trigger] s[j]).0 != k,
    ensures
        !map_of(s).contains_key(k),
    decreases s.len(),
{
    if s.len() > 0 {
        assert(forall|j: int|
            0 <= j < s.drop_last().len() ==> (#[trigger] s.drop_last()[j]).0 != k);
        lemma_absent_key(s.drop_last(), k);
    }
}

proof fn lemma_present_key<K, V>(s: Seq<(K, V)>, k: K, i: int)
    requires
        0 <= i < s.len(),
        s[i].0 == k,
        forall|j: int| i < j < s.len() ==> (#[trigger] s[j]).0 != k,
    ensures
        map_of(s).contains_key(k),
        map_of(s)[k] == s[i].1,
    decreases s.len(),
{
    if i < s.len() - 1 {
        lemma_present_key(s.drop_last(), k, i);
        assert(s.last().0 != k);
    }
}

/// A map from `K` to `V`, backed by a vector of entries.
pub struct AssocMap<K, V> {
    entries: Vec<(K, V)>,
}

impl<K, V> View for AssocMap<K, V> {
    type V = Map<K, V>;

    closed spec fn view(&self) -> Map<K, V> {
        map_of(self.entries@)
    }
}

impl<K: AssocKey, V: Copy> AssocMap<K, V> {
    pub fn new() -> (r: Self)
        ensures
            r@ == Map::<K, V>::empty(),
    {
        AssocMap { entries: Vec::new() }
    }

    pub fn get(&self, key: &K) -> (r: Option<V>)
        ensures
            r == if self@.contains_key(*key) {
                Some(self@[*key])
            } else {
                None::<V>
            },
    {
        let mut i: usize = self.entries.len();
        while i > 0
            invariant
                i <= self.entries@.len(),
                forall|j: int|
                    i <= j < self.entries@.len() ==> (#[trigger] self.entries@[j]).0 != *key,
            decreases i,
        {
            i = i - 1;
            let e = self.entries[i];
            if e.0.key_eq(key) {
                proof {
                    lemma_present_key(self.entries@, *key, i as int);
                }
                return Some(e.1);
            }
        }
        proof {
            lemma_absent_key(self.entries@, *key);
        }
        None
    }

    pub fn contains_key(&self, key: &K) -> (r: bool)
        ensures
            r == self@.contains_key(*key),
    {
        self.get(key).is_some()
    }

    pub fn insert(&mut self, key: K, value: V)
        ensures
            final(self)@ == old(self)@.insert(key, value),
    {
        self.entries.push((key, value));
        proof {
            assert(self.entries@.drop_last() =~= old(self).entries@);
            assert(self.entries@.last() == (key, value));
        }
    }
}

} // verus!
