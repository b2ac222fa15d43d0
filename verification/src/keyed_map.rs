//! A map that keeps its entries in the order in which their keys came first.

use vstd::prelude::*;

verus! {

/// A type whose values stand for what they are viewed as: two keys are the same
/// when their views are.
pub trait Key: View + Sized {
    fn same(&self, other: &Self) -> (b: bool)
        ensures
            b == (self@ == other@),
    ;
}

/// No two entries have the same key.
pub open spec fn distinct_keys<K: Key, V>(s: Seq<(K, V)>) -> bool {
    forall|i: int, j: int| 0 <= i < j < s.len() ==> #[trigger] s[i].0@ != #[trigger] s[j].0@
}

/// Some entry has the key `k`.
pub open spec fn has_key<K: Key, V>(s: Seq<(K, V)>, k: K::V) -> bool {
    exists|i: int| 0 <= i < s.len() && #[trigger] s[i].0@ == k
}

/// The two have the same keys in the same places.
pub open spec fn same_keys<K: Key, V>(s: Seq<(K, V)>, t: Seq<(K, V)>) -> bool {
    s.len() == t.len() && forall|i: int| 0 <= i < s.len() ==> #[trigger] s[i].0 == t[i].0
}

/// The map from each key to the value beside it.
pub open spec fn map_of<K: Key, V>(s: Seq<(K, V)>) -> Map<K::V, V> {
    Map::new(
        |k: K::V| has_key(s, k),
        |k: K::V| s[choose|i: int| 0 <= i < s.len() && #[trigger] s[i].0@ == k].1,
    )
}

/// An entry's key is bound to the value beside it.
pub proof fn lemma_entry<K: Key, V>(s: Seq<(K, V)>, i: int)
    requires
        distinct_keys(s),
        0 <= i < s.len(),
    ensures
        map_of(s).contains_key(s[i].0@),
        map_of(s)[s[i].0@] == s[i].1,
{
    let k = s[i].0@;
    let j = choose|j: int| 0 <= j < s.len() && #[trigger] s[j].0@ == k;
    assert(i == j);
}

proof fn lemma_push<K: Key, V>(s: Seq<(K, V)>, k: K, v: V)
    requires
        distinct_keys(s),
        !has_key(s, k@),
    ensures
        distinct_keys(s.push((k, v))),
        map_of(s.push((k, v))) == map_of(s).insert(k@, v),
{
    let t = s.push((k, v));
    assert(distinct_keys(t));
    assert forall|x: K::V| #[trigger] map_of(t).contains_key(x) implies map_of(s).insert(
        k@,
        v,
    ).contains_key(x) && map_of(t)[x] == map_of(s).insert(k@, v)[x] by {
        let i = choose|i: int| 0 <= i < t.len() && #[trigger] t[i].0@ == x;
        lemma_entry(t, i);
        if i < s.len() {
            assert(s[i].0@ == x);
            lemma_entry(s, i);
        }
    }
    assert forall|x: K::V| #[trigger] map_of(s).insert(k@, v).contains_key(x) implies map_of(
        t,
    ).contains_key(x) by {
        if x == k@ {
            assert(t[s.len() as int].0@ == x);
        } else {
            let i = choose|i: int| 0 <= i < s.len() && #[trigger] s[i].0@ == x;
            assert(t[i].0@ == x);
        }
    }
    assert(map_of(t) =~= map_of(s).insert(k@, v));
}

proof fn lemma_update<K: Key, V>(s: Seq<(K, V)>, i: int, v: V)
    requires
        distinct_keys(s),
        0 <= i < s.len(),
    ensures
        distinct_keys(s.update(i, (s[i].0, v))),
        map_of(s.update(i, (s[i].0, v))) == map_of(s).insert(s[i].0@, v),
{
    let t = s.update(i, (s[i].0, v));
    assert(forall|j: int| 0 <= j < s.len() ==> t[j].0 == s[j].0);
    assert(distinct_keys(t));
    assert forall|x: K::V| #[trigger] map_of(t).contains_key(x) implies map_of(s).insert(
        s[i].0@,
        v,
    ).contains_key(x) && map_of(t)[x] == map_of(s).insert(s[i].0@, v)[x] by {
        let j = choose|j: int| 0 <= j < t.len() && #[trigger] t[j].0@ == x;
        lemma_entry(t, j);
        lemma_entry(s, j);
    }
    assert forall|x: K::V| #[trigger] map_of(s).insert(s[i].0@, v).contains_key(x) implies map_of(
        t,
    ).contains_key(x) by {
        let j = if x == s[i].0@ {
            i
        } else {
            choose|j: int| 0 <= j < s.len() && #[trigger] s[j].0@ == x
        };
        assert(t[j].0@ == x);
    }
    assert(map_of(t) =~= map_of(s).insert(s[i].0@, v));
}

/// Without the last entry its key is unbound, and nothing else changes.
pub proof fn lemma_drop_last<K: Key, V>(s: Seq<(K, V)>)
    requires
        distinct_keys(s),
        s.len() > 0,
    ensures
        distinct_keys(s.drop_last()),
        map_of(s.drop_last()) == map_of(s).remove(s.last().0@),
        map_of(s).contains_key(s.last().0@),
        map_of(s)[s.last().0@] == s.last().1,
{
    let t = s.drop_last();
    lemma_entry(s, s.len() - 1);
    assert(s =~= t.push(s.last()));
    assert(!has_key(t, s.last().0@)) by {
        if has_key(t, s.last().0@) {
            let i = choose|i: int| 0 <= i < t.len() && #[trigger] t[i].0@ == s.last().0@;
            assert(s[i].0@ == s[s.len() - 1].0@);
        }
    }
    lemma_push(t, s.last().0, s.last().1);
    assert(map_of(t) =~= map_of(s).remove(s.last().0@));
}

proof fn lemma_len<K: Key, V>(s: Seq<(K, V)>)
    requires
        distinct_keys(s),
    ensures
        map_of(s).dom().finite(),
        map_of(s).dom().len() == s.len(),
    decreases s.len(),
{
    if s.len() == 0 {
        assert(map_of(s).dom() =~= Set::empty());
    } else {
        lemma_drop_last(s);
        lemma_len(s.drop_last());
        assert(map_of(s).dom() =~= map_of(s.drop_last()).dom().insert(s.last().0@));
    }
}

/// A map from keys to values.
#[derive(Debug)]
pub struct KeyedMap<K, V> {
    entries: Vec<(K, V)>,
}

impl<K: Key, V> View for KeyedMap<K, V> {
    type V = Map<K::V, V>;

    open spec fn view(&self) -> Map<K::V, V> {
        map_of(self.entries())
    }
}

impl<K: Key, V> KeyedMap<K, V> {
    /// The entries, in the order in which their keys came first.
    pub closed spec fn entries(&self) -> Seq<(K, V)> {
        self.entries@
    }

    /// No key occurs twice.
    pub open spec fn wf(&self) -> bool {
        distinct_keys(self.entries())
    }

    pub fn new() -> (r: KeyedMap<K, V>)
        ensures
            r.wf(),
            r.entries() == Seq::<(K, V)>::empty(),
            r@ == Map::<K::V, V>::empty(),
    {
        let r = KeyedMap { entries: Vec::new() };
        assert(r@ =~= Map::<K::V, V>::empty());
        r
    }

    /// How many keys there are.
    pub fn len(&self) -> (n: usize)
        requires
            self.wf(),
        ensures
            n == self.entries().len(),
            self@.dom().finite(),
            n == self@.dom().len(),
    {
        proof {
            lemma_len(self.entries());
        }
        self.entries.len()
    }

    /// The entry at a place in the order.
    pub fn entry(&self, i: usize) -> (r: (&K, &V))
        requires
            self.wf(),
            i < self.entries().len(),
        ensures
            *r.0 == self.entries()[i as int].0,
            *r.1 == self.entries()[i as int].1,
            self@.contains_key(r.0@),
            self@[r.0@] == *r.1,
    {
        proof {
            lemma_entry(self.entries(), i as int);
        }
        (&self.entries[i].0, &self.entries[i].1)
    }

    fn find(&self, key: &K) -> (r: Option<usize>)
        ensures
            match r {
                Some(i) => i < self.entries().len() && self.entries()[i as int].0@ == key@,
                None => !has_key(self.entries(), key@),
            },
    {
        let mut i: usize = 0;
        while i < self.entries.len()
            invariant
                i <= self.entries@.len(),
                forall|j: int| 0 <= j < i ==> #[trigger] self.entries@[j].0@ != key@,
            decreases self.entries@.len() - i,
        {
            if self.entries[i].0.same(key) {
                return Some(i);
            }
            i += 1;
        }
        None
    }

    pub fn contains_key(&self, key: &K) -> (b: bool)
        ensures
            b == self@.contains_key(key@),
    {
        self.find(key).is_some()
    }

    pub fn get(&self, key: &K) -> (r: Option<&V>)
        requires
            self.wf(),
        ensures
            match r {
                Some(v) => self@.contains_key(key@) && *v == self@[key@],
                None => !self@.contains_key(key@),
            },
    {
        match self.find(key) {
            Some(i) => {
                proof {
                    lemma_entry(self.entries(), i as int);
                }
                Some(&self.entries[i].1)
            },
            None => None,
        }
    }

    pub fn get_mut(&mut self, key: &K) -> (r: Option<&mut V>)
        requires
            old(self).wf(),
        ensures
            final(self).wf(),
            match r {
                Some(v) => {
                    &&& old(self)@.contains_key(key@)
                    &&& *v == old(self)@[key@]
                    &&& final(self)@ == old(self)@.insert(key@, *final(v))
                    &&& same_keys(final(self).entries(), old(self).entries())
                },
                None => !old(self)@.contains_key(key@) && *final(self) == *old(self),
            },
    {
        match self.find(key) {
            Some(i) => {
                proof {
                    lemma_entry(self.entries(), i as int);
                    assert forall|v: V|
                        #![trigger self.entries@.update(i as int, (self.entries@[i as int].0, v))]
                        {
                            let t = self.entries@.update(i as int, (self.entries@[i as int].0, v));
                            distinct_keys(t) && map_of(t) == map_of(self.entries@).insert(key@, v)
                        } by {
                        lemma_update(self.entries@, i as int, v);
                    }
                }
                Some(&mut self.entries[i].1)
            },
            None => None,
        }
    }

    /// Binds the key to the value, in place of what it was bound to.
    pub fn insert(&mut self, key: K, value: V)
        requires
            old(self).wf(),
        ensures
            final(self).wf(),
            final(self)@ == old(self)@.insert(key@, value),
            old(self)@.contains_key(key@) ==> same_keys(
                final(self).entries(),
                old(self).entries(),
            ),
            !old(self)@.contains_key(key@) ==> final(self).entries() == old(self).entries().push(
                (key, value),
            ),
    {
        match self.find(&key) {
            Some(i) => {
                proof {
                    lemma_update(self.entries@, i as int, value);
                }
                self.entries[i].1 = value;
            },
            None => {
                proof {
                    lemma_push(self.entries@, key, value);
                }
                self.entries.push((key, value));
            },
        }
    }

    /// Takes the last entry out.
    pub fn pop(&mut self) -> (r: Option<(K, V)>)
        requires
            old(self).wf(),
        ensures
            final(self).wf(),
            match r {
                Some((k, v)) => {
                    &&& old(self).entries().len() > 0
                    &&& (k, v) == old(self).entries().last()
                    &&& old(self)@.contains_key(k@)
                    &&& old(self)@[k@] == v
                    &&& final(self)@ == old(self)@.remove(k@)
                    &&& final(self).entries() == old(self).entries().drop_last()
                },
                None => {
                    &&& old(self).entries().len() == 0
                    &&& old(self)@ == Map::<K::V, V>::empty()
                    &&& final(self).entries() == old(self).entries()
                },
            },
    {
        proof {
            if self.entries@.len() > 0 {
                lemma_drop_last(self.entries@);
            } else {
                assert(self@ =~= Map::<K::V, V>::empty());
            }
        }
        self.entries.pop()
    }
}

/// A key is bound exactly where some entry has it, and then to the value beside it.
pub proof fn law_entries_are_the_bindings<K: Key, V>(s: Seq<(K, V)>, k: K::V, v: V)
    requires
        forall|i: int, j: int| 0 <= i < j < s.len() ==> #[trigger] s[i].0@ != #[trigger] s[j].0@,
    ensures
        distinct_keys(s),
        map_of(s).contains_key(k) && map_of(s)[k] == v <==> exists|i: int|
            0 <= i < s.len() && (#[trigger] s[i]).0@ == k && s[i].1 == v,
{
    if map_of(s).contains_key(k) && map_of(s)[k] == v {
        let i = choose|i: int| 0 <= i < s.len() && #[trigger] s[i].0@ == k;
        lemma_entry(s, i);
        assert(s[i].0@ == k && s[i].1 == v);
    }
    if exists|i: int| 0 <= i < s.len() && (#[trigger] s[i]).0@ == k && s[i].1 == v {
        let i = choose|i: int| 0 <= i < s.len() && (#[trigger] s[i]).0@ == k && s[i].1 == v;
        lemma_entry(s, i);
    }
}

} // verus!
