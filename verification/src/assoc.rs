//! A small dictionary: a list of pairs in which the first pair of a key counts. Its keys may be texts,
//! and they keep the order in which they came, so that what is done for each of them has one.

use vstd::prelude::*;

use crate::text::same_text;

verus! {

/// What the keys of a dictionary offer: a model, and a comparison that follows it.
pub trait Key: Sized {
    type Model;

    spec fn key(&self) -> Self::Model;

    fn same(&self, other: &Self) -> (b: bool)
        ensures
            b == (self.key() == other.key()),
    ;

    fn duplicate(&self) -> (r: Self)
        ensures
            r.key() == self.key(),
    ;
}

impl Key for u64 {
    type Model = u64;

    open spec fn key(&self) -> u64 {
        *self
    }

    fn same(&self, other: &u64) -> (b: bool) {
        *self == *other
    }

    fn duplicate(&self) -> (r: u64) {
        *self
    }
}

impl Key for String {
    type Model = Seq<char>;

    open spec fn key(&self) -> Seq<char> {
        self@
    }

    fn same(&self, other: &String) -> (b: bool) {
        same_text(self.as_str(), other.as_str())
    }

    fn duplicate(&self) -> (r: String) {
        self.clone()
    }
}

impl Key for (String, u64) {
    type Model = (Seq<char>, u64);

    open spec fn key(&self) -> (Seq<char>, u64) {
        (self.0@, self.1)
    }

    fn same(&self, other: &(String, u64)) -> (b: bool) {
        self.1 == other.1 && same_text(self.0.as_str(), other.0.as_str())
    }

    fn duplicate(&self) -> (r: (String, u64)) {
        (self.0.clone(), self.1)
    }
}

pub struct Assoc<K, V> {
    pub pairs: Vec<(K, V)>,
}

/// The value of the first pair with key `k`.
pub open spec fn lookup<K: Key, V>(s: Seq<(K, V)>, k: K::Model) -> Option<V>
    decreases s.len(),
{
    if s.len() == 0 {
        None
    } else if s[0].0.key() == k {
        Some(s[0].1)
    } else {
        lookup(s.drop_first(), k)
    }
}

proof fn lemma_lookup_at<K: Key, V>(s: Seq<(K, V)>, k: K::Model, i: int)
    requires
        0 <= i < s.len(),
        s[i].0.key() == k,
        forall|j: int| 0 <= j < i ==> (#[trigger] s[j]).0.key() != k,
    ensures
        lookup(s, k) == Some(s[i].1),
    decreases i,
{
    if i > 0 {
        assert(s[0].0.key() != k);
        assert forall|j: int| 0 <= j < i - 1 implies (#[trigger] s.drop_first()[j]).0.key()
            != k by {
            assert(s.drop_first()[j] == s[j + 1]);
        }
        lemma_lookup_at(s.drop_first(), k, i - 1);
    }
}

proof fn lemma_lookup_none<K: Key, V>(s: Seq<(K, V)>, k: K::Model)
    requires
        forall|j: int| 0 <= j < s.len() ==> (#[trigger] s[j]).0.key() != k,
    ensures
        lookup(s, k) is None,
    decreases s.len(),
{
    if s.len() > 0 {
        assert(s[0].0.key() != k);
        assert forall|j: int| 0 <= j < s.len() - 1 implies (#[trigger] s.drop_first()[j]).0.key()
            != k by {
            assert(s.drop_first()[j] == s[j + 1]);
        }
        lemma_lookup_none(s.drop_first(), k);
    }
}

proof fn lemma_lookup_some<K: Key, V>(s: Seq<(K, V)>, i: int)
    requires
        0 <= i < s.len(),
    ensures
        lookup(s, s[i].0.key()) is Some,
    decreases i,
{
    if i > 0 {
        lemma_lookup_some(s.drop_first(), i - 1);
        assert(s.drop_first()[i - 1] == s[i]);
    }
}

/// A key that is found stands in a pair.
pub proof fn lemma_lookup_found<K: Key, V>(s: Seq<(K, V)>, k: K::Model)
    requires
        lookup(s, k) is Some,
    ensures
        exists|i: int| 0 <= i < s.len() && (#[trigger] s[i]).0.key() == k && lookup(s, k) == Some(s[i].1),
    decreases s.len(),
{
    if s[0].0.key() == k {
        assert(s[0].0.key() == k);
    } else {
        lemma_lookup_found(s.drop_first(), k);
        let j = choose|j: int|
            0 <= j < s.drop_first().len() && (#[trigger] s.drop_first()[j]).0.key() == k && lookup(
                s.drop_first(),
                k,
            ) == Some(s.drop_first()[j].1);
        assert(s[j + 1] == s.drop_first()[j]);
    }
}

proof fn lemma_lookup_push<K: Key, V>(s: Seq<(K, V)>, p: (K, V), k: K::Model)
    ensures
        lookup(s.push(p), k) == if lookup(s, k) is Some {
            lookup(s, k)
        } else if p.0.key() == k {
            Some(p.1)
        } else {
            None
        },
    decreases s.len(),
{
    if s.len() > 0 {
        assert(s.push(p).drop_first() =~= s.drop_first().push(p));
        lemma_lookup_push(s.drop_first(), p, k);
    } else {
        assert(s.push(p).drop_first() =~= s);
    }
}

proof fn lemma_lookup_update<K: Key, V>(s: Seq<(K, V)>, i: int, p: (K, V), k: K::Model)
    requires
        0 <= i < s.len(),
        s[i].0.key() == p.0.key(),
        forall|j: int| 0 <= j < i ==> (#[trigger] s[j]).0.key() != p.0.key(),
    ensures
        lookup(s.update(i, p), k) == if k == p.0.key() {
            Some(p.1)
        } else {
            lookup(s, k)
        },
    decreases i,
{
    if i == 0 {
        assert(s.update(0, p).drop_first() =~= s.drop_first());
    } else {
        assert(s.update(i, p).drop_first() =~= s.drop_first().update(i - 1, p));
        assert(s[0].0.key() != p.0.key());
        assert forall|j: int| 0 <= j < i - 1 implies (#[trigger] s.drop_first()[j]).0.key()
            != p.0.key() by {
            assert(s.drop_first()[j] == s[j + 1]);
        }
        lemma_lookup_update(s.drop_first(), i - 1, p, k);
    }
}

/// The pairs of a dictionary as a map.
pub open spec fn as_map<K: Key, V>(s: Seq<(K, V)>) -> Map<K::Model, V> {
    Map::new(|k: K::Model| lookup(s, k) is Some, |k: K::Model| lookup(s, k)->0)
}

impl<K: Key, V> View for Assoc<K, V> {
    type V = Map<K::Model, V>;

    open spec fn view(&self) -> Map<K::Model, V> {
        as_map(self.pairs@)
    }
}

/// The pairs whose key is not `k`.
pub open spec fn without<K: Key, V>(s: Seq<(K, V)>, k: K::Model) -> Seq<(K, V)>
    decreases s.len(),
{
    if s.len() == 0 {
        Seq::empty()
    } else if s.last().0.key() == k {
        without(s.drop_last(), k)
    } else {
        without(s.drop_last(), k).push(s.last())
    }
}

proof fn lemma_lookup_without<K: Key, V>(s: Seq<(K, V)>, k: K::Model, q: K::Model)
    ensures
        lookup(without(s, k), q) == if q == k {
            None
        } else {
            lookup(s, q)
        },
    decreases s.len(),
{
    if s.len() > 0 {
        lemma_lookup_without(s.drop_last(), k, q);
        assert(s.drop_last().push(s.last()) =~= s);
        lemma_lookup_push(s.drop_last(), s.last(), q);
        lemma_lookup_push(without(s.drop_last(), k), s.last(), q);
    }
}

/// No key stands in two pairs.
pub open spec fn distinct_keys<K: Key, V>(s: Seq<(K, V)>) -> bool {
    forall|i: int, j: int|
        0 <= i < j < s.len() ==> (#[trigger] s[i]).0.key() != (#[trigger] s[j]).0.key()
}

proof fn lemma_without_members<K: Key, V>(s: Seq<(K, V)>, k: K::Model, i: int)
    requires
        0 <= i < without(s, k).len(),
    ensures
        exists|j: int| 0 <= j < s.len() && s[j] == without(s, k)[i],
    decreases s.len(),
{
    if s.len() > 0 {
        let rest = without(s.drop_last(), k);
        if i < rest.len() {
            lemma_without_members(s.drop_last(), k, i);
            let j = choose|j: int| 0 <= j < s.drop_last().len() && s.drop_last()[j] == rest[i];
            assert(s[j] == without(s, k)[i]);
        } else {
            assert(s[s.len() - 1] == without(s, k)[i]);
        }
    }
}

proof fn lemma_without_distinct<K: Key, V>(s: Seq<(K, V)>, k: K::Model)
    requires
        distinct_keys(s),
    ensures
        distinct_keys(without(s, k)),
    decreases s.len(),
{
    if s.len() > 0 {
        let rest = without(s.drop_last(), k);
        lemma_without_distinct(s.drop_last(), k);
        let all = without(s, k);
        assert forall|i: int, j: int| 0 <= i < j < all.len() implies (#[trigger] all[i]).0.key()
            != (#[trigger] all[j]).0.key() by {
            if j < rest.len() {
                assert(rest[i].0.key() != rest[j].0.key());
            } else {
                lemma_without_members(s.drop_last(), k, i);
                let a = choose|a: int| 0 <= a < s.drop_last().len() && s.drop_last()[a] == rest[i];
                assert(s[a].0.key() != s[s.len() - 1].0.key());
            }
        }
    }
}

proof fn lemma_without_absent<K: Key, V>(s: Seq<(K, V)>, k: K::Model)
    requires
        forall|j: int| 0 <= j < s.len() ==> (#[trigger] s[j]).0.key() != k,
    ensures
        without(s, k) == s,
    decreases s.len(),
{
    if s.len() > 0 {
        assert forall|j: int| 0 <= j < s.len() - 1 implies (#[trigger] s.drop_last()[j]).0.key()
            != k by {
            assert(s.drop_last()[j] == s[j]);
        }
        lemma_without_absent(s.drop_last(), k);
        assert(s[s.len() - 1].0.key() != k);
        assert(s.drop_last().push(s.last()) =~= s);
    }
}

proof fn lemma_remove_is_without<K: Key, V>(s: Seq<(K, V)>, k: K::Model, i: int)
    requires
        0 <= i < s.len(),
        s[i].0.key() == k,
        distinct_keys(s),
    ensures
        s.remove(i) == without(s, k),
    decreases s.len(),
{
    let init = s.drop_last();
    if i == s.len() - 1 {
        assert forall|j: int| 0 <= j < init.len() implies (#[trigger] init[j]).0.key() != k by {
            assert(s[j].0.key() != s[i].0.key());
        }
        lemma_without_absent(init, k);
        assert(s.remove(i) =~= init);
    } else {
        assert(s[i].0.key() != s[s.len() - 1].0.key());
        assert(init[i] == s[i]);
        lemma_remove_is_without(init, k, i);
        assert(s.remove(i) =~= init.remove(i).push(s.last()));
    }
}

impl<K: Key, V> Assoc<K, V> {
    /// No key stands in two pairs.
    pub open spec fn distinct(&self) -> bool {
        distinct_keys(self.pairs@)
    }

    pub fn new() -> (r: Self)
        ensures
            r@ == Map::<K::Model, V>::empty(),
            r.pairs@.len() == 0,
            r.distinct(),
    {
        let r = Assoc { pairs: Vec::new() };
        proof {
            assert(r@ =~= Map::<K::Model, V>::empty());
        }
        r
    }

    fn find(&self, k: &K) -> (r: Option<usize>)
        ensures
            match r {
                Some(i) => i < self.pairs.len() && self.pairs@[i as int].0.key() == k.key()
                    && forall|j: int|
                    0 <= j < i ==> (#[trigger] self.pairs@[j]).0.key() != k.key(),
                None => forall|j: int|
                    0 <= j < self.pairs.len() ==> (#[trigger] self.pairs@[j]).0.key() != k.key(),
            },
    {
        let mut i: usize = 0;
        while i < self.pairs.len()
            invariant
                i <= self.pairs.len(),
                forall|j: int| 0 <= j < i ==> (#[trigger] self.pairs@[j]).0.key() != k.key(),
            decreases self.pairs.len() - i,
        {
            if self.pairs[i].0.same(k) {
                return Some(i);
            }
            i += 1;
        }
        None
    }

    pub fn get(&self, k: &K) -> (r: Option<&V>)
        ensures
            match r {
                Some(v) => self@.contains_key(k.key()) && self@[k.key()] == *v,
                None => !self@.contains_key(k.key()),
            },
    {
        match self.find(k) {
            Some(i) => {
                proof {
                    lemma_lookup_at(self.pairs@, k.key(), i as int);
                }
                Some(&self.pairs[i].1)
            },
            None => {
                proof {
                    lemma_lookup_none(self.pairs@, k.key());
                }
                None
            },
        }
    }

    pub fn contains(&self, k: &K) -> (b: bool)
        ensures
            b == self@.contains_key(k.key()),
    {
        let r = self.get(k);
        r.is_some()
    }

    pub fn insert(&mut self, k: K, v: V)
        ensures
            final(self)@ == old(self)@.insert(k.key(), v),
            old(self).distinct() ==> final(self).distinct(),
    {
        let ghost before = self.pairs@;
        let ghost key = k.key();
        match self.find(&k) {
            Some(i) => {
                let ghost p = (k, v);
                self.pairs.set(i, (k, v));
                proof {
                    assert forall|q: K::Model| #[trigger]
                        lookup(self.pairs@, q) == if q == key {
                            Some(v)
                        } else {
                            lookup(before, q)
                        } by {
                        lemma_lookup_update(before, i as int, p, q);
                    }
                    assert(self@ =~= as_map(before).insert(key, v));
                }
            },
            None => {
                let ghost p = (k, v);
                self.pairs.push((k, v));
                proof {
                    lemma_lookup_none(before, key);
                    assert forall|q: K::Model| #[trigger]
                        lookup(self.pairs@, q) == if q == key {
                            Some(v)
                        } else {
                            lookup(before, q)
                        } by {
                        lemma_lookup_push(before, p, q);
                    }
                    assert(self@ =~= as_map(before).insert(key, v));
                }
            },
        }
    }

    /// The keys of the pairs; a key that stands in two pairs comes twice.
    pub fn keys(&self) -> (r: Vec<K>)
        ensures
            r.len() == self.pairs.len(),
            forall|i: int| 0 <= i < r.len() ==> (#[trigger] r@[i]).key() == self.pairs@[i].0.key(),
            forall|i: int| 0 <= i < r.len() ==> self@.contains_key((#[trigger] r@[i]).key()),
            forall|k: K::Model| #[trigger]
                self@.contains_key(k) ==> exists|i: int| 0 <= i < r.len() && r@[i].key() == k,
    {
        let mut r: Vec<K> = Vec::new();
        let mut i: usize = 0;
        while i < self.pairs.len()
            invariant
                i <= self.pairs.len(),
                r.len() == i,
                forall|j: int| 0 <= j < i ==> (#[trigger] r@[j]).key() == self.pairs@[j].0.key(),
            decreases self.pairs.len() - i,
        {
            r.push(self.pairs[i].0.duplicate());
            i += 1;
        }
        proof {
            assert forall|j: int| 0 <= j < r.len() implies self@.contains_key(
                (#[trigger] r@[j]).key(),
            ) by {
                lemma_lookup_some(self.pairs@, j);
            }
            assert forall|k: K::Model| #[trigger] self@.contains_key(k) implies exists|j: int|
                0 <= j < r.len() && r@[j].key() == k by {
                if forall|j: int| 0 <= j < r.len() ==> (#[trigger] r@[j]).key() != k {
                    assert forall|j: int| 0 <= j < self.pairs@.len() implies (
                    #[trigger] self.pairs@[j]).0.key() != k by {
                        assert(r@[j].key() != k);
                    }
                    lemma_lookup_none(self.pairs@, k);
                }
            }
        }
        r
    }

    /// Takes the value of a key out.
    pub fn take(&mut self, k: &K) -> (r: Option<V>)
        requires
            old(self).distinct(),
        ensures
            final(self).distinct(),
            final(self)@ == old(self)@.remove(k.key()),
            match r {
                Some(v) => old(self)@.contains_key(k.key()) && old(self)@[k.key()] == v,
                None => !old(self)@.contains_key(k.key()),
            },
    {
        let ghost before = self.pairs@;
        match self.find(k) {
            Some(i) => {
                proof {
                    lemma_lookup_at(before, k.key(), i as int);
                }
                let p = self.pairs.remove(i);
                proof {
                    lemma_remove_is_without(before, k.key(), i as int);
                    lemma_without_distinct(before, k.key());
                    assert forall|q: K::Model| #[trigger]
                        lookup(self.pairs@, q) == if q == k.key() {
                            None
                        } else {
                            lookup(before, q)
                        } by {
                        lemma_lookup_without(before, k.key(), q);
                    }
                    assert(self@ =~= as_map(before).remove(k.key()));
                }
                Some(p.1)
            },
            None => {
                proof {
                    lemma_lookup_none(before, k.key());
                    assert(self@ =~= as_map(before).remove(k.key()));
                }
                None
            },
        }
    }

    pub fn remove(&mut self, k: &K)
        ensures
            final(self)@ == old(self)@.remove(k.key()),
            old(self).distinct() ==> final(self).distinct(),
            final(self).pairs@ == without(old(self).pairs@, k.key()),
    {
        let ghost before = self.pairs@;
        let mut rest: Vec<(K, V)> = Vec::new();
        let mut held: Vec<(K, V)> = Vec::new();
        std::mem::swap(&mut held, &mut self.pairs);
        proof {
            assert(before.take(0) =~= Seq::empty());
        }
        for p in it: held
            invariant
                it.seq() == before,
                rest@ == without(before.take(it.index() as int), k.key()),
        {
            proof {
                let i = it.index() as int;
                assert(before.take(i + 1).drop_last() =~= before.take(i));
                assert(before.take(i + 1).last() == before[i]);
            }
            if !p.0.same(k) {
                rest.push(p);
            }
        }
        self.pairs = rest;
        proof {
            assert(before.take(before.len() as int) =~= before);
            assert forall|q: K::Model| #[trigger]
                lookup(self.pairs@, q) == if q == k.key() {
                    None
                } else {
                    lookup(before, q)
                } by {
                lemma_lookup_without(before, k.key(), q);
            }
            assert(self@ =~= as_map(before).remove(k.key()));
            if distinct_keys(before) {
                lemma_without_distinct(before, k.key());
            }
        }
    }
}

} // verus!
