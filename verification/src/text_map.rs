//! A map from text to values that keeps its entries in the order in which
//! their keys first came.
//!
//! In contracts such a map is a sequence of pairs, a key and a value, in
//! which no key stands twice. The functions on such sequences come first;
//! `TextMap` is the map itself.

use vstd::prelude::*;

verus! {

/// The keys of the pairs of `s`, in order.
pub open spec fn keys<T>(s: Seq<(Seq<char>, T)>) -> Seq<Seq<char>> {
    Seq::new(s.len(), |i: int| s[i].0)
}

/// Some pair of `s` has the key `key`.
pub open spec fn has_key<T>(s: Seq<(Seq<char>, T)>, key: Seq<char>) -> bool {
    exists|i: int| 0 <= i < s.len() && (#[trigger] s[i]).0 == key
}

/// An index at which `s` has the key `key`, where it has one.
pub open spec fn index_of<T>(s: Seq<(Seq<char>, T)>, key: Seq<char>) -> int {
    choose|i: int| 0 <= i < s.len() && (#[trigger] s[i]).0 == key
}

/// No key stands twice in `s`.
pub open spec fn distinct_keys<T>(s: Seq<(Seq<char>, T)>) -> bool {
    forall|i: int, j: int| 0 <= i < j < s.len() ==> (#[trigger] s[i]).0 != (#[trigger] s[j]).0
}

/// The value that `s` has under `key`, where it has one.
pub open spec fn value_of<T>(s: Seq<(Seq<char>, T)>, key: Seq<char>) -> T {
    s[index_of(s, key)].1
}

/// The value that `s` has under `key`, if any.
pub open spec fn lookup<T>(s: Seq<(Seq<char>, T)>, key: Seq<char>) -> Option<T> {
    if has_key(s, key) {
        Some(value_of(s, key))
    } else {
        None
    }
}

/// `s` with `value` under `key`: in the place of the pair that had the key,
/// or at the end where none had it.
pub open spec fn upsert<T>(s: Seq<(Seq<char>, T)>, key: Seq<char>, value: T) -> Seq<
    (Seq<char>, T),
> {
    if has_key(s, key) {
        s.update(index_of(s, key), (key, value))
    } else {
        s.push((key, value))
    }
}

/// Where no key stands twice, the index of a key is the one index that
/// holds it.
pub proof fn index_is_unique<T>(s: Seq<(Seq<char>, T)>, key: Seq<char>, i: int)
    requires
        distinct_keys(s),
        0 <= i < s.len(),
        s[i].0 == key,
    ensures
        has_key(s, key),
        index_of(s, key) == i,
{
    let j = index_of(s, key);
    assert(0 <= j < s.len() && s[j].0 == key);
    if j < i {
        assert(s[j].0 != s[i].0);
    } else if i < j {
        assert(s[i].0 != s[j].0);
    }
}

/// Putting a value under a key leaves no key standing twice, keeps or adds
/// the key, and touches no other key.
pub proof fn upsert_keeps_distinct<T>(s: Seq<(Seq<char>, T)>, key: Seq<char>, value: T)
    requires
        distinct_keys(s),
    ensures
        distinct_keys(upsert(s, key, value)),
        has_key(upsert(s, key, value), key),
        value_of(upsert(s, key, value), key) == value,
        forall|other: Seq<char>|
            other != key ==> has_key(upsert(s, key, value), other) == has_key(s, other),
        forall|other: Seq<char>|
            other != key && has_key(s, other) ==> value_of(upsert(s, key, value), other)
                == value_of(s, other),
{
    let r = upsert(s, key, value);
    if has_key(s, key) {
        let at = index_of(s, key);
        assert(0 <= at < s.len() && s[at].0 == key);
        assert forall|i: int, j: int| 0 <= i < j < r.len() implies (#[trigger] r[i]).0 != (
        #[trigger] r[j]).0 by {
            assert(s[i].0 != s[j].0);
        }
        assert(r[at].0 == key);
        index_is_unique(r, key, at);
        assert forall|other: Seq<char>| other != key implies has_key(r, other) == has_key(
            s,
            other,
        ) by {
            if has_key(s, other) {
                let k = index_of(s, other);
                assert(r[k].0 == other);
            }
            if has_key(r, other) {
                let k = index_of(r, other);
                assert(s[k].0 == other);
            }
        }
        assert forall|other: Seq<char>| other != key && has_key(s, other) implies value_of(
            r,
            other,
        ) == value_of(s, other) by {
            let k = index_of(s, other);
            assert(r[k].0 == other);
            index_is_unique(r, other, k);
        }
    } else {
        assert forall|i: int, j: int| 0 <= i < j < r.len() implies (#[trigger] r[i]).0 != (
        #[trigger] r[j]).0 by {
            if j == s.len() {
                assert(s[i].0 != key);
            } else {
                assert(s[i].0 != s[j].0);
            }
        }
        assert(r[s.len() as int].0 == key);
        index_is_unique(r, key, s.len() as int);
        assert forall|other: Seq<char>| other != key implies has_key(r, other) == has_key(
            s,
            other,
        ) by {
            if has_key(s, other) {
                let k = index_of(s, other);
                assert(r[k].0 == other);
            }
            if has_key(r, other) {
                let k = index_of(r, other);
                assert(s[k].0 == other);
            }
        }
        assert forall|other: Seq<char>| other != key && has_key(s, other) implies value_of(
            r,
            other,
        ) == value_of(s, other) by {
            let k = index_of(s, other);
            assert(r[k].0 == other);
            index_is_unique(r, other, k);
        }
    }
}

/// The value that was put last under a key is the one that stays: a second
/// value under the same key leaves what the second alone would have left.
pub proof fn upsert_twice<T>(s: Seq<(Seq<char>, T)>, key: Seq<char>, first: T, second: T)
    requires
        distinct_keys(s),
    ensures
        upsert(upsert(s, key, first), key, second) == upsert(s, key, second),
{
    let once = upsert(s, key, first);
    upsert_keeps_distinct(s, key, first);
    if has_key(s, key) {
        let at = index_of(s, key);
        assert(0 <= at < s.len() && s[at].0 == key);
        assert(once[at].0 == key);
        index_is_unique(once, key, at);
        assert(upsert(once, key, second) =~= upsert(s, key, second));
    } else {
        index_is_unique(once, key, s.len() as int);
        assert(upsert(once, key, second) =~= upsert(s, key, second));
    }
}

/// `s` with `f` applied to each value.
pub open spec fn map_values<T, U>(s: Seq<(Seq<char>, T)>, f: spec_fn(T) -> U) -> Seq<
    (Seq<char>, U),
> {
    Seq::new(s.len(), |i: int| (s[i].0, f(s[i].1)))
}

/// `s` with each pair of the first `n` of `batch` put in, in order.
pub open spec fn upsert_all<T>(s: Seq<(Seq<char>, T)>, batch: Seq<(Seq<char>, T)>, n: int) -> Seq<
    (Seq<char>, T),
>
    decreases n,
{
    if n <= 0 {
        s
    } else {
        upsert(upsert_all(s, batch, n - 1), batch[n - 1].0, batch[n - 1].1)
    }
}

/// A change of the values changes no key.
pub proof fn map_values_keeps_keys<T, U>(s: Seq<(Seq<char>, T)>, f: spec_fn(T) -> U)
    ensures
        distinct_keys(map_values(s, f)) == distinct_keys(s),
        forall|key: Seq<char>| has_key(map_values(s, f), key) == has_key(s, key),
        distinct_keys(s) ==> forall|key: Seq<char>|
            has_key(s, key) ==> index_of(map_values(s, f), key) == index_of(s, key),
        distinct_keys(s) ==> forall|key: Seq<char>|
            has_key(s, key) ==> value_of(map_values(s, f), key) == f(value_of(s, key)),
{
    let m = map_values(s, f);
    if distinct_keys(s) {
        assert forall|i: int, j: int| 0 <= i < j < m.len() implies (#[trigger] m[i]).0 != (
        #[trigger] m[j]).0 by {
            assert(s[i].0 != s[j].0);
        }
    }
    if distinct_keys(m) {
        assert forall|i: int, j: int| 0 <= i < j < s.len() implies (#[trigger] s[i]).0 != (
        #[trigger] s[j]).0 by {
            assert(m[i].0 != m[j].0);
        }
    }
    assert forall|key: Seq<char>| has_key(m, key) == has_key(s, key) by {
        if has_key(s, key) {
            let k = index_of(s, key);
            assert(m[k].0 == key);
        }
        if has_key(m, key) {
            let k = index_of(m, key);
            assert(s[k].0 == key);
        }
    }
    if distinct_keys(s) {
        assert forall|key: Seq<char>| has_key(s, key) implies index_of(m, key) == index_of(
            s,
            key,
        ) && value_of(m, key) == f(value_of(s, key)) by {
            let k = index_of(s, key);
            assert(m[k].0 == key);
            index_is_unique(m, key, k);
        }
    }
}

/// To put a value in and then change all values is to change them and then
/// put the changed value in.
pub proof fn map_values_upsert<T, U>(
    s: Seq<(Seq<char>, T)>,
    f: spec_fn(T) -> U,
    key: Seq<char>,
    value: T,
)
    requires
        distinct_keys(s),
    ensures
        map_values(upsert(s, key, value), f) == upsert(map_values(s, f), key, f(value)),
{
    map_values_keeps_keys(s, f);
    assert(map_values(upsert(s, key, value), f) =~= upsert(map_values(s, f), key, f(value)));
}

/// What holds of every value and of a new one holds of every value after
/// the new one is put in.
pub proof fn upsert_keeps<T>(
    s: Seq<(Seq<char>, T)>,
    key: Seq<char>,
    value: T,
    holds: spec_fn(T) -> bool,
)
    requires
        forall|i: int| 0 <= i < s.len() ==> holds((#[trigger] s[i]).1),
        holds(value),
    ensures
        forall|i: int|
            0 <= i < upsert(s, key, value).len() ==> holds((#[trigger] upsert(s, key, value)[i]).1),
{
    let after = upsert(s, key, value);
    assert forall|i: int| 0 <= i < after.len() implies holds((#[trigger] after[i]).1) by {
        if has_key(s, key) {
            if i != index_of(s, key) {
                assert(holds(s[i].1));
            }
        } else {
            if i < s.len() {
                assert(holds(s[i].1));
            }
        }
    }
}

/// What holds of every value before a batch is put in, and of every value
/// of the batch, holds of every value afterwards; and no key stands twice.
pub proof fn upsert_all_keeps<T>(
    s: Seq<(Seq<char>, T)>,
    batch: Seq<(Seq<char>, T)>,
    n: int,
    holds: spec_fn(T) -> bool,
)
    requires
        0 <= n <= batch.len(),
        distinct_keys(s),
        forall|i: int| 0 <= i < s.len() ==> holds((#[trigger] s[i]).1),
        forall|i: int| 0 <= i < batch.len() ==> holds((#[trigger] batch[i]).1),
    ensures
        distinct_keys(upsert_all(s, batch, n)),
        forall|i: int|
            0 <= i < upsert_all(s, batch, n).len() ==> holds(
                (#[trigger] upsert_all(s, batch, n)[i]).1,
            ),
    decreases n,
{
    if n > 0 {
        upsert_all_keeps(s, batch, n - 1, holds);
        let before = upsert_all(s, batch, n - 1);
        upsert_keeps_distinct(before, batch[n - 1].0, batch[n - 1].1);
        assert(holds(batch[n - 1].1));
        upsert_keeps(before, batch[n - 1].0, batch[n - 1].1, holds);
    }
}

/// A map from text to values of `V`, in the order in which the keys first
/// came.
#[derive(Debug)]
pub struct TextMap<V> {
    entries: Vec<(String, V)>,
}

impl<V> TextMap<V> {
    /// The pairs of the map, each key as the text it holds.
    pub closed spec fn model(&self) -> Seq<(Seq<char>, V)> {
        Seq::new(self.entries@.len(), |i: int| (self.entries@[i].0@, self.entries@[i].1))
    }

    /// No key stands twice.
    pub open spec fn wf(&self) -> bool {
        distinct_keys(self.model())
    }

    pub fn new() -> (m: Self)
        ensures
            m.model() == Seq::<(Seq<char>, V)>::empty(),
            m.wf(),
    {
        let m = TextMap { entries: Vec::new() };
        assert(m.model() =~= Seq::<(Seq<char>, V)>::empty());
        m
    }

    pub fn len(&self) -> (n: usize)
        ensures
            n == self.model().len(),
    {
        self.entries.len()
    }

    /// The index of the pair that has `key`, if one has it.
    pub fn position(&self, key: &String) -> (r: Option<usize>)
        ensures
            match r {
                Some(i) => i < self.model().len() && self.model()[i as int].0 == key@,
                None => !has_key(self.model(), key@),
            },
            self.wf() ==> (r matches Some(i) ==> i == index_of(self.model(), key@)),
            r is Some == has_key(self.model(), key@),
    {
        let mut i: usize = 0;
        while i < self.entries.len()
            invariant
                i <= self.entries.len(),
                forall|j: int| 0 <= j < i ==> (#[trigger] self.model()[j]).0 != key@,
            decreases self.entries.len() - i,
        {
            if self.entries[i].0 == *key {
                assert(self.model()[i as int].0 == key@);
                proof {
                    if self.wf() {
                        index_is_unique(self.model(), key@, i as int);
                    }
                }
                return Some(i);
            }
            i += 1;
        }
        None
    }

    pub fn contains_key(&self, key: &String) -> (r: bool)
        ensures
            r == has_key(self.model(), key@),
    {
        self.position(key).is_some()
    }

    /// The value under `key`, if there is one.
    pub fn get(&self, key: &String) -> (r: Option<&V>)
        requires
            self.wf(),
        ensures
            match r {
                Some(v) => lookup(self.model(), key@) == Some(*v),
                None => lookup(self.model(), key@) is None,
            },
    {
        match self.position(key) {
            Some(i) => Some(&self.entries[i].1),
            None => None,
        }
    }

    /// The key of the pair at index `i`.
    pub fn key_at(&self, i: usize) -> (r: &String)
        requires
            i < self.model().len(),
        ensures
            r@ == self.model()[i as int].0,
    {
        &self.entries[i].0
    }

    /// The value of the pair at index `i`.
    pub fn value_at(&self, i: usize) -> (r: &V)
        requires
            i < self.model().len(),
        ensures
            *r == self.model()[i as int].1,
    {
        &self.entries[i].1
    }

    /// The value of the pair at index `i`, to change it in place.
    pub fn value_at_mut(&mut self, i: usize) -> (r: &mut V)
        requires
            i < old(self).model().len(),
        ensures
            *r == old(self).model()[i as int].1,
            final(self).model() == old(self).model().update(
                i as int,
                (old(self).model()[i as int].0, *final(r)),
            ),
    {
        &mut self.entries[i].1
    }

    /// Puts `value` under `key`: in the place of the value that the key had,
    /// or behind all others where the key is new.
    pub fn insert(&mut self, key: String, value: V)
        requires
            old(self).wf(),
        ensures
            final(self).wf(),
            final(self).model() == upsert(old(self).model(), key@, value),
    {
        proof {
            upsert_keeps_distinct(self.model(), key@, value);
        }
        match self.position(&key) {
            Some(i) => {
                self.entries[i] = (key, value);
                assert(self.model() =~= upsert(old(self).model(), key@, value));
            },
            None => {
                self.entries.push((key, value));
                assert(self.model() =~= upsert(old(self).model(), key@, value));
            },
        }
    }
}

} // verus!
