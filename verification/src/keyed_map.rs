use vstd::prelude::*;

use crate::address::Address;

verus! {

/// A type whose values can key a [`KeyedMap`]: two keys are the same key exactly
/// when their views are equal.
pub trait MapKey: View + Sized {
    /// Whether `self` and `other` are the same key.
    fn same_key(&self, other: &Self) -> (r: bool)
        ensures
            r == (self@ == other@),
    ;

    /// A copy of this key.
    fn copy_key(&self) -> (r: Self)
        ensures
            r == *self,
    ;
}

impl MapKey for Address {
    fn same_key(&self, other: &Self) -> (r: bool) {
        *self == *other
    }

    fn copy_key(&self) -> (r: Self) {
        self.clone()
    }
}

impl MapKey for String {
    fn same_key(&self, other: &Self) -> (r: bool) {
        *self == *other
    }

    fn copy_key(&self) -> (r: Self) {
        self.clone()
    }
}

impl MapKey for u64 {
    fn same_key(&self, other: &Self) -> (r: bool) {
        *self == *other
    }

    fn copy_key(&self) -> (r: Self) {
        *self
    }
}

impl MapKey for (Address, Address) {
    fn same_key(&self, other: &Self) -> (r: bool) {
        self.0 == other.0 && self.1 == other.1
    }

    fn copy_key(&self) -> (r: Self) {
        (self.0.clone(), self.1.clone())
    }
}

/// No key occurs twice among the entries.
pub open spec fn keys_distinct<K: View, V>(s: Seq<(K, V)>) -> bool {
    forall|i: int, j: int|
        #![trigger s[i], s[j]]
        0 <= i < s.len() && 0 <= j < s.len() && i != j ==> s[i].0@ != s[j].0@
}

/// The map that a sequence of entries describes, later entries winning.
pub open spec fn map_of<K: View, V>(s: Seq<(K, V)>) -> Map<K::V, V>
    decreases s.len(),
{
    if s.len() == 0 {
        Map::empty()
    } else {
        map_of(s.drop_last()).insert(s.last().0@, s.last().1)
    }
}

/// The sum of `f` over the values of a sequence of entries.
pub open spec fn total_of<K, V>(s: Seq<(K, V)>, f: spec_fn(V) -> int) -> int
    decreases s.len(),
{
    if s.len() == 0 {
        0
    } else {
        total_of(s.drop_last(), f) + f(s.last().1)
    }
}

proof fn lemma_map_of<K: View, V>(s: Seq<(K, V)>)
    requires
        keys_distinct(s),
    ensures
        forall|i: int|
            #![trigger s[i]]
            0 <= i < s.len() ==> map_of(s).contains_key(s[i].0@) && map_of(s)[s[i].0@] == s[i].1,
        forall|k: K::V|
            #[trigger] map_of(s).contains_key(k) ==> exists|i: int| 0 <= i < s.len() && s[i].0@ == k,
    decreases s.len(),
{
    if s.len() > 0 {
        let t = s.drop_last();
        let n = s.len() - 1;
        assert forall|i: int, j: int|
            #![trigger t[i], t[j]]
            0 <= i < t.len() && 0 <= j < t.len() && i != j implies t[i].0@ != t[j].0@ by {
            assert(t[i] == s[i] && t[j] == s[j]);
        }
        lemma_map_of(t);
        assert forall|i: int|
            #![trigger s[i]]
            0 <= i < s.len() implies map_of(s).contains_key(s[i].0@) && map_of(s)[s[i].0@]
                == s[i].1 by {
            if i < n {
                assert(t[i] == s[i]);
                assert(s[i].0@ != s[n].0@);
            }
        }
        assert forall|k: K::V| #[trigger] map_of(s).contains_key(k) implies exists|i: int|
            0 <= i < s.len() && s[i].0@ == k by {
            if k == s[n].0@ {
                assert(s[n].0@ == k);
            } else {
                assert(map_of(t).contains_key(k));
                let i = choose|i: int| 0 <= i < t.len() && t[i].0@ == k;
                assert(s[i] == t[i]);
            }
        }
    }
}

proof fn lemma_total_update<K, V>(s: Seq<(K, V)>, i: int, e: (K, V), f: spec_fn(V) -> int)
    requires
        0 <= i < s.len(),
    ensures
        total_of(s.update(i, e), f) == total_of(s, f) - f(s[i].1) + f(e.1),
    decreases s.len(),
{
    let n = s.len() - 1;
    if i == n {
        assert(s.update(i, e).drop_last() =~= s.drop_last());
    } else {
        assert(s.update(i, e).drop_last() =~= s.drop_last().update(i, e));
        lemma_total_update(s.drop_last(), i, e, f);
    }
}

proof fn lemma_total_remove<K, V>(s: Seq<(K, V)>, i: int, f: spec_fn(V) -> int)
    requires
        0 <= i < s.len(),
    ensures
        total_of(s.remove(i), f) == total_of(s, f) - f(s[i].1),
    decreases s.len(),
{
    let n = s.len() - 1;
    if i == n {
        assert(s.remove(i) =~= s.drop_last());
    } else {
        assert(s.remove(i).drop_last() =~= s.drop_last().remove(i));
        lemma_total_remove(s.drop_last(), i, f);
    }
}

proof fn lemma_total_nonneg_parts<K, V>(s: Seq<(K, V)>, f: spec_fn(V) -> int)
    requires
        forall|j: int| 0 <= j < s.len() ==> f(#[trigger] s[j].1) >= 0,
    ensures
        total_of(s, f) >= 0,
    decreases s.len(),
{
    if s.len() > 0 {
        let t = s.drop_last();
        assert forall|j: int| 0 <= j < t.len() implies f(#[trigger] t[j].1) >= 0 by {
            assert(t[j] == s[j]);
        }
        lemma_total_nonneg_parts(t, f);
        assert(f(s[s.len() - 1].1) >= 0);
    }
}

proof fn lemma_total_at_least_part<K, V>(s: Seq<(K, V)>, i: int, f: spec_fn(V) -> int)
    requires
        0 <= i < s.len(),
        forall|j: int| 0 <= j < s.len() ==> f(#[trigger] s[j].1) >= 0,
    ensures
        total_of(s, f) >= f(s[i].1),
    decreases s.len(),
{
    let t = s.drop_last();
    assert forall|j: int| 0 <= j < t.len() implies f(#[trigger] t[j].1) >= 0 by {
        assert(t[j] == s[j]);
    }
    lemma_total_nonneg_parts(t, f);
    if i < s.len() - 1 {
        assert(t[i] == s[i]);
        lemma_total_at_least_part(t, i, f);
        assert(f(s[s.len() - 1].1) >= 0);
    }
}

/// A finite map held as a list of entries, keyed by the views of its keys.
pub struct KeyedMap<K: MapKey, V> {
    entries: Vec<(K, V)>,
}

impl<K: MapKey, V> View for KeyedMap<K, V> {
    type V = Map<K::V, V>;

    closed spec fn view(&self) -> Map<K::V, V> {
        map_of(self.entries@)
    }
}

impl<K: MapKey, V> KeyedMap<K, V> {
    #[verifier::type_invariant]
    spec fn entries_distinct(self) -> bool {
        keys_distinct(self.entries@)
    }

    /// The sum of `f` over the values that the map holds.
    pub closed spec fn total(&self, f: spec_fn(V) -> int) -> int {
        total_of(self.entries@, f)
    }

    /// No key is held twice. Every map that the exec functions produce is so.
    pub closed spec fn well_formed(&self) -> bool {
        keys_distinct(self.entries@)
    }

    /// When `f` is nonnegative on every value held, the total is nonnegative
    /// and at least `f` of the value held under any key.
    pub proof fn lemma_total_bounds(&self, k: K::V, f: spec_fn(V) -> int)
        requires
            self.well_formed(),
            forall|kk: K::V| #[trigger] self@.contains_key(kk) ==> f(self@[kk]) >= 0,
        ensures
            self.total(f) >= 0,
            self@.contains_key(k) ==> self.total(f) >= f(self@[k]),
    {
        let s = self.entries@;
        lemma_map_of(s);
        assert forall|j: int| 0 <= j < s.len() implies f(#[trigger] s[j].1) >= 0 by {
            assert(map_of(s).contains_key(s[j].0@));
            assert(self@ == map_of(s));
            assert(self@.contains_key(s[j].0@));
            assert(self@[s[j].0@] == s[j].1);
        }
        lemma_total_nonneg_parts(s, f);
        if self@.contains_key(k) {
            let i = choose|i: int| 0 <= i < s.len() && s[i].0@ == k;
            assert(map_of(s)[s[i].0@] == s[i].1);
            lemma_total_at_least_part(s, i, f);
        }
    }

    /// The empty map.
    pub fn new() -> (m: Self)
        ensures
            m@ == Map::<K::V, V>::empty(),
            m.well_formed(),
            forall|f: spec_fn(V) -> int| #[trigger] m.total(f) == 0,
    {
        KeyedMap { entries: Vec::new() }
    }

    /// The position of the entry keyed by `k`, if there is one.
    fn find(&self, k: &K) -> (r: Option<usize>)
        ensures
            match r {
                Some(i) => i < self.entries@.len() && self.entries@[i as int].0@ == k@,
                None => forall|j: int| 0 <= j < self.entries@.len() ==> self.entries@[j].0@ != k@,
            },
    {
        let mut i: usize = 0;
        while i < self.entries.len()
            invariant
                0 <= i <= self.entries@.len(),
                forall|j: int| 0 <= j < i ==> self.entries@[j].0@ != k@,
            decreases self.entries@.len() - i,
        {
            if self.entries[i].0.same_key(k) {
                return Some(i);
            }
            i += 1;
        }
        None
    }

    /// The value stored under `k`, if any.
    pub fn get(&self, k: &K) -> (r: Option<&V>)
        ensures
            match r {
                Some(v) => self@.contains_key(k@) && *v == self@[k@],
                None => !self@.contains_key(k@),
            },
    {
        proof {
            use_type_invariant(self);
            lemma_map_of(self.entries@);
        }
        match self.find(k) {
            Some(i) => {
                proof {
                    assert(self.entries@[i as int].0@ == k@);
                }
                Some(&self.entries[i].1)
            },
            None => None,
        }
    }

    /// Stores `v` under `k`, replacing any value stored there before.
    pub fn insert(&mut self, k: K, v: V)
        ensures
            final(self)@ == old(self)@.insert(k@, v),
            final(self).well_formed(),
            forall|f: spec_fn(V) -> int|
                #[trigger] final(self).total(f) == old(self).total(f) - (if old(self)@.contains_key(
                    k@,
                ) {
                    f(old(self)@[k@])
                } else {
                    0
                }) + f(v),
    {
        proof {
            use_type_invariant(&*self);
            lemma_map_of(self.entries@);
        }
        let found = self.find(&k);
        let mut es: Vec<(K, V)> = Vec::new();
        std::mem::swap(&mut es, &mut self.entries);
        let ghost s = es@;
        let ghost kv = k@;
        match found {
            Some(i) => {
                es.set(i, (k, v));
                proof {
                    let t = es@;
                    assert(t == s.update(i as int, t[i as int]));
                    assert forall|a: int, b: int|
                        #![trigger t[a], t[b]]
                        0 <= a < t.len() && 0 <= b < t.len() && a != b implies t[a].0@
                        != t[b].0@ by {
                        assert(s[a].0@ == t[a].0@);
                        assert(s[b].0@ == t[b].0@);
                    }
                    lemma_map_of(t);
                    assert(map_of(s)[kv] == s[i as int].1);
                    assert forall|key: K::V| #[trigger]
                        map_of(t).contains_key(key) implies map_of(s).insert(kv, v).contains_key(
                        key,
                    ) by {
                        let j = choose|j: int| 0 <= j < t.len() && t[j].0@ == key;
                        assert(s[j].0@ == key);
                    }
                    assert forall|key: K::V| #[trigger]
                        map_of(s).insert(kv, v).contains_key(key) implies map_of(t).contains_key(
                        key,
                    ) && map_of(t)[key] == map_of(s).insert(kv, v)[key] by {
                        if key == kv {
                            assert(t[i as int].0@ == key);
                        } else {
                            let j = choose|j: int| 0 <= j < s.len() && s[j].0@ == key;
                            assert(t[j] == s[j]);
                        }
                    }
                    assert(map_of(t) =~= map_of(s).insert(kv, v));
                    assert forall|f: spec_fn(V) -> int| #[trigger]
                        total_of(t, f) == total_of(s, f) - f(s[i as int].1) + f(v) by {
                        lemma_total_update(s, i as int, t[i as int], f);
                    }
                }
            },
            None => {
                es.push((k, v));
                proof {
                    let t = es@;
                    assert(t.drop_last() =~= s);
                    assert forall|a: int, b: int|
                        #![trigger t[a], t[b]]
                        0 <= a < t.len() && 0 <= b < t.len() && a != b implies t[a].0@
                        != t[b].0@ by {
                        if a < s.len() {
                            assert(t[a] == s[a]);
                        }
                        if b < s.len() {
                            assert(t[b] == s[b]);
                        }
                    }
                    assert(!map_of(s).contains_key(kv)) by {
                        if map_of(s).contains_key(kv) {
                            let j = choose|j: int| 0 <= j < s.len() && s[j].0@ == kv;
                        }
                    }
                }
            },
        }
        self.entries = es;
    }

    /// Removes the value stored under `k`, if any.
    pub fn remove(&mut self, k: &K)
        ensures
            final(self)@ == old(self)@.remove(k@),
            final(self).well_formed(),
            forall|f: spec_fn(V) -> int|
                #[trigger] final(self).total(f) == old(self).total(f) - (if old(self)@.contains_key(
                    k@,
                ) {
                    f(old(self)@[k@])
                } else {
                    0
                }),
    {
        proof {
            use_type_invariant(&*self);
            lemma_map_of(self.entries@);
        }
        match self.find(k) {
            None => {
                proof {
                    assert(!map_of(self.entries@).contains_key(k@)) by {
                        if map_of(self.entries@).contains_key(k@) {
                            let j = choose|j: int|
                                0 <= j < self.entries@.len() && self.entries@[j].0@ == k@;
                        }
                    }
                    assert(map_of(self.entries@).remove(k@) =~= map_of(self.entries@));
                }
            },
            Some(i) => {
                let mut es: Vec<(K, V)> = Vec::new();
                std::mem::swap(&mut es, &mut self.entries);
                let ghost s = es@;
                let ghost kv = k@;
                let _gone = es.remove(i);
                proof {
                    let t = es@;
                    let ii = i as int;
                    assert(t == s.remove(ii));
                    assert forall|a: int| 0 <= a < t.len() implies #[trigger] t[a] == (if a < ii {
                        s[a]
                    } else {
                        s[a + 1]
                    }) by {}
                    assert forall|a: int, b: int|
                        #![trigger t[a], t[b]]
                        0 <= a < t.len() && 0 <= b < t.len() && a != b implies t[a].0@
                        != t[b].0@ by {
                        let sa = if a < ii {
                            a
                        } else {
                            a + 1
                        };
                        let sb = if b < ii {
                            b
                        } else {
                            b + 1
                        };
                        assert(t[a] == s[sa] && t[b] == s[sb]);
                    }
                    lemma_map_of(t);
                    assert forall|key: K::V| #[trigger]
                        map_of(t).contains_key(key) implies map_of(s).remove(kv).contains_key(key)
                        && map_of(t)[key] == map_of(s).remove(kv)[key] by {
                        let j = choose|j: int| 0 <= j < t.len() && t[j].0@ == key;
                        let sj = if j < ii {
                            j
                        } else {
                            j + 1
                        };
                        assert(t[j] == s[sj]);
                        assert(sj != ii);
                    }
                    assert forall|key: K::V| #[trigger]
                        map_of(s).remove(kv).contains_key(key) implies map_of(t).contains_key(
                        key,
                    ) by {
                        let j = choose|j: int| 0 <= j < s.len() && s[j].0@ == key;
                        assert(j != ii);
                        let tj = if j < ii {
                            j
                        } else {
                            j - 1
                        };
                        assert(t[tj] == s[j]);
                    }
                    assert(map_of(t) =~= map_of(s).remove(kv));
                    assert(map_of(s)[kv] == s[ii].1);
                    assert forall|f: spec_fn(V) -> int| #[trigger]
                        total_of(t, f) == total_of(s, f) - f(s[ii].1) by {
                        lemma_total_remove(s, ii, f);
                    }
                }
                self.entries = es;
            },
        }
    }
}

} // verus!
