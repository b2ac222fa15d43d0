//! What each principal moved, asset by asset.

use crate::keyed_map::{distinct_keys, lemma_drop_last, lemma_entry, map_of, KeyedMap};
use crate::types::{AssetIdentifier, AssetView, PrincipalData, PrincipalView};
use vstd::prelude::*;

verus! {

/// A principal and an asset.
pub type TransferKey = (PrincipalView, AssetView);

/// The entries of the rows, each under its principal and its asset.
pub open spec fn flatten<V>(
    rows: Map<PrincipalView, KeyedMap<AssetIdentifier, V>>,
) -> Map<TransferKey, V> {
    Map::new(
        |k: TransferKey| rows.contains_key(k.0) && rows[k.0]@.contains_key(k.1),
        |k: TransferKey| rows[k.0]@[k.1],
    )
}

/// The entries of one row, each with its principal.
pub open spec fn row_listing<V>(
    principal: PrincipalData,
    row: Seq<(AssetIdentifier, V)>,
) -> Seq<(PrincipalData, AssetIdentifier, V)> {
    row.map_values(|entry: (AssetIdentifier, V)| (principal, entry.0, entry.1))
}

/// The entries of the rows, one row after the other.
pub open spec fn listing<V>(
    rows: Seq<(PrincipalData, KeyedMap<AssetIdentifier, V>)>,
) -> Seq<(PrincipalData, AssetIdentifier, V)>
    decreases rows.len(),
{
    if rows.len() == 0 {
        Seq::empty()
    } else {
        listing(rows.drop_last()) + row_listing(rows.last().0, rows.last().1.entries())
    }
}

/// The key of a listed entry.
pub open spec fn listed_key<V>(entry: (PrincipalData, AssetIdentifier, V)) -> TransferKey {
    (entry.0@, entry.1@)
}

/// The list holds the entries of the map, each once.
pub open spec fn lists<V>(
    list: Seq<(PrincipalData, AssetIdentifier, V)>,
    map: Map<TransferKey, V>,
) -> bool {
    &&& forall|i: int|
        0 <= i < list.len() ==> map.contains_key(#[trigger] listed_key(list[i]))
            && map[listed_key(list[i])] == list[i].2
    &&& forall|i: int, j: int|
        0 <= i < j < list.len() ==> #[trigger] listed_key(list[i]) != #[trigger] listed_key(list[j])
    &&& forall|k: TransferKey| #[trigger]
        map.contains_key(k) ==> exists|i: int|
            0 <= i < list.len() && #[trigger] listed_key(list[i]) == k
}

/// The list with another reading of its values.
pub open spec fn read_as<V, W>(
    list: Seq<(PrincipalData, AssetIdentifier, V)>,
    f: spec_fn(V) -> W,
) -> Seq<(PrincipalData, AssetIdentifier, W)> {
    list.map_values(|entry: (PrincipalData, AssetIdentifier, V)| (entry.0, entry.1, f(entry.2)))
}

/// What lists a map also lists it in another reading of its values.
pub proof fn lemma_read_as<V, W>(
    list: Seq<(PrincipalData, AssetIdentifier, V)>,
    map: Map<TransferKey, V>,
    f: spec_fn(V) -> W,
)
    requires
        lists(list, map),
    ensures
        lists(read_as(list, f), map.map_values(f)),
{
    let other = read_as(list, f);
    assert forall|i: int| 0 <= i < other.len() implies listed_key(#[trigger] other[i])
        == listed_key(list[i]) by {}
    assert forall|i: int, j: int| 0 <= i < j < other.len() implies #[trigger] listed_key(other[i])
        != #[trigger] listed_key(other[j]) by {
        assert(listed_key(list[i]) != listed_key(list[j]));
    }
    assert forall|i: int| 0 <= i < other.len() implies map.map_values(f).contains_key(
        #[trigger] listed_key(other[i]),
    ) && map.map_values(f)[listed_key(other[i])] == other[i].2 by {
        assert(map.contains_key(listed_key(list[i])));
    }
    assert forall|k: TransferKey| #[trigger] map.map_values(f).contains_key(k) implies exists|i: int|
        0 <= i < other.len() && #[trigger] listed_key(other[i]) == k by {
        assert(map.contains_key(k));
        let i = choose|i: int| 0 <= i < list.len() && #[trigger] listed_key(list[i]) == k;
        assert(listed_key(other[i]) == k);
    }
}

proof fn lemma_listing<V>(rows: Seq<(PrincipalData, KeyedMap<AssetIdentifier, V>)>)
    requires
        distinct_keys(rows),
        forall|i: int| 0 <= i < rows.len() ==> (#[trigger] rows[i]).1.wf(),
    ensures
        lists(listing(rows), flatten(map_of(rows))),
    decreases rows.len(),
{
    if rows.len() > 0 {
        let fewer = rows.drop_last();
        let principal = rows.last().0;
        let row = rows.last().1;
        assert(rows[rows.len() - 1].1.wf());
        assert forall|i: int| 0 <= i < fewer.len() implies (#[trigger] fewer[i]).1.wf() by {
            assert(rows[i].1.wf());
        }
        lemma_drop_last(rows);
        lemma_listing(fewer);
        let list = listing(rows);
        let short = listing(fewer);
        let map = flatten(map_of(rows));
        let smaller = flatten(map_of(fewer));
        assert forall|i: int| 0 <= i < list.len() implies map.contains_key(
            #[trigger] listed_key(list[i]),
        ) && map[listed_key(list[i])] == list[i].2 by {
            if i < short.len() {
                assert(list[i] == short[i]);
                assert(smaller.contains_key(listed_key(short[i])));
            } else {
                lemma_entry(row.entries(), i - short.len());
            }
        }
        assert forall|i: int, j: int| 0 <= i < j < list.len() implies #[trigger] listed_key(list[i])
            != #[trigger] listed_key(list[j]) by {
            if j < short.len() {
                assert(listed_key(short[i]) != listed_key(short[j]));
            } else if i < short.len() {
                assert(smaller.contains_key(listed_key(short[i])));
            } else {
                assert(row.entries()[i - short.len()].0@ != row.entries()[j - short.len()].0@);
            }
        }
        assert forall|k: TransferKey| #[trigger] map.contains_key(k) implies exists|i: int|
            0 <= i < list.len() && #[trigger] listed_key(list[i]) == k by {
            if k.0 == principal@ {
                let j = choose|j: int|
                    0 <= j < row.entries().len() && #[trigger] row.entries()[j].0@ == k.1;
                assert(listed_key(list[short.len() + j]) == k);
            } else {
                assert(smaller.contains_key(k));
                let i = choose|i: int| 0 <= i < short.len() && #[trigger] listed_key(short[i]) == k;
                assert(listed_key(list[i]) == k);
            }
        }
    }
}

/// One row of entries for each principal that has any.
#[derive(Debug)]
pub struct TransferTable<V> {
    rows: KeyedMap<PrincipalData, KeyedMap<AssetIdentifier, V>>,
}

impl<V> View for TransferTable<V> {
    type V = Map<TransferKey, V>;

    open spec fn view(&self) -> Map<TransferKey, V> {
        flatten(self.rows()@)
    }
}

impl<V> TransferTable<V> {
    pub closed spec fn rows(&self) -> KeyedMap<PrincipalData, KeyedMap<AssetIdentifier, V>> {
        self.rows
    }

    /// No principal and no asset of a principal occurs twice, and no row is
    /// empty.
    pub open spec fn wf(&self) -> bool {
        &&& self.rows().wf()
        &&& forall|p: PrincipalView| #[trigger]
            self.rows()@.contains_key(p) ==> {
                &&& self.rows()@[p].wf()
                &&& self.rows()@[p].entries().len() > 0
            }
    }

    /// How many principals have entries.
    pub open spec fn height(&self) -> nat {
        self.rows().entries().len()
    }

    /// How many entries the last principal has.
    pub open spec fn last_width(&self) -> nat {
        self.rows().entries().last().1.entries().len()
    }

    pub fn new() -> (r: TransferTable<V>)
        ensures
            r.wf(),
            r@ == Map::<TransferKey, V>::empty(),
    {
        let r = TransferTable { rows: KeyedMap::new() };
        assert(r@ =~= Map::<TransferKey, V>::empty());
        r
    }

    pub fn get(&self, principal: &PrincipalData, asset: &AssetIdentifier) -> (r: Option<&V>)
        requires
            self.wf(),
        ensures
            match r {
                Some(v) => self@.contains_key((principal@, asset@)) && *v == self@[(
                    principal@,
                    asset@,
                )],
                None => !self@.contains_key((principal@, asset@)),
            },
    {
        match self.rows.get(principal) {
            Some(row) => row.get(asset),
            None => None,
        }
    }

    pub fn get_mut(&mut self, principal: &PrincipalData, asset: &AssetIdentifier) -> (r: Option<
        &mut V,
    >)
        requires
            old(self).wf(),
        ensures
            final(self).wf(),
            match r {
                Some(v) => {
                    &&& old(self)@.contains_key((principal@, asset@))
                    &&& *v == old(self)@[(principal@, asset@)]
                    &&& final(self)@ == old(self)@.insert((principal@, asset@), *final(v))
                },
                None => {
                    &&& !old(self)@.contains_key((principal@, asset@))
                    &&& final(self)@ == old(self)@
                },
            },
    {
        match self.rows.get_mut(principal) {
            Some(row) => row.get_mut(asset),
            None => None,
        }
    }

    /// Sets the entry of a principal and an asset.
    pub fn insert(&mut self, principal: &PrincipalData, asset: AssetIdentifier, value: V)
        requires
            old(self).wf(),
        ensures
            final(self).wf(),
            final(self)@ == old(self)@.insert((principal@, asset@), value),
    {
        if !self.rows.contains_key(principal) {
            self.rows.insert(principal.clone(), KeyedMap::new());
        }
        match self.rows.get_mut(principal) {
            Some(row) => {
                row.insert(asset, value);
            },
            None => {},
        }
        assert(self@ =~= old(self)@.insert((principal@, asset@), value));
    }

    /// Takes one entry out.
    pub fn pop(&mut self) -> (r: Option<(PrincipalData, AssetIdentifier, V)>)
        requires
            old(self).wf(),
        ensures
            final(self).wf(),
            match r {
                Some((p, a, v)) => {
                    &&& old(self)@.contains_key((p@, a@))
                    &&& old(self)@[(p@, a@)] == v
                    &&& final(self)@ == old(self)@.remove((p@, a@))
                    &&& final(self).height() < old(self).height() || (final(self).height()
                        == old(self).height() && final(self).last_width() < old(
                        self,
                    ).last_width())
                },
                None => {
                    &&& old(self)@ == Map::<TransferKey, V>::empty()
                    &&& final(self)@ == old(self)@
                },
            },
    {
        match self.rows.pop() {
            Some((principal, mut row)) => {
                match row.pop() {
                    Some((asset, value)) => {
                        if row.len() > 0 {
                            self.rows.insert(principal.clone(), row);
                        }
                        assert(self@ =~= old(self)@.remove((principal@, asset@)));
                        Some((principal, asset, value))
                    },
                    None => None,
                }
            },
            None => None,
        }
    }

    /// The entries in the order in which their principals, and the assets of each
    /// principal, came first.
    pub open spec fn listing(&self) -> Seq<(PrincipalData, AssetIdentifier, V)> {
        listing(self.rows().entries())
    }

    /// The entries, one after the other.
    pub fn list(&self) -> (r: Vec<(&PrincipalData, &AssetIdentifier, &V)>)
        requires
            self.wf(),
        ensures
            r@.len() == self.listing().len(),
            forall|i: int|
                0 <= i < r@.len() ==> (*r@[i].0, *r@[i].1, *r@[i].2) == #[trigger] self.listing()[i],
            lists(self.listing(), self@),
    {
        let ghost rows = self.rows.entries();
        let mut r: Vec<(&PrincipalData, &AssetIdentifier, &V)> = Vec::new();
        let mut i: usize = 0;
        while i < self.rows.len()
            invariant
                self.wf(),
                rows == self.rows.entries(),
                i <= rows.len(),
                r@.len() == listing(rows.take(i as int)).len(),
                forall|n: int|
                    0 <= n < r@.len() ==> (*r@[n].0, *r@[n].1, *r@[n].2) == #[trigger] listing(
                        rows.take(i as int),
                    )[n],
            decreases rows.len() - i,
        {
            let (principal, row) = self.rows.entry(i);
            let ghost done = listing(rows.take(i as int));
            let mut j: usize = 0;
            while j < row.len()
                invariant
                    row.wf(),
                    j <= row.entries().len(),
                    r@.len() == done.len() + j,
                    forall|n: int|
                        0 <= n < done.len() ==> (*r@[n].0, *r@[n].1, *r@[n].2)
                            == #[trigger] done[n],
                    forall|n: int|
                        0 <= n < j ==> (
                            *r@[done.len() + n].0,
                            *r@[done.len() + n].1,
                            *r@[done.len() + n].2,
                        ) == (*principal, (#[trigger] row.entries()[n]).0, row.entries()[n].1),
                decreases row.entries().len() - j,
            {
                let (asset, value) = row.entry(j);
                r.push((principal, asset, value));
                j += 1;
            }
            i += 1;
            proof {
                let next = rows.take(i as int);
                assert(next.drop_last() =~= rows.take(i - 1));
                assert(next.last() == rows[i - 1]);
                assert forall|n: int| 0 <= n < r@.len() implies (*r@[n].0, *r@[n].1, *r@[n].2)
                    == #[trigger] listing(next)[n] by {
                    if n < done.len() {
                        assert(listing(next)[n] == done[n]);
                    } else {
                        assert(row.entries()[n - done.len()] == row.entries()[n - done.len()]);
                    }
                }
            }
        }
        proof {
            assert(rows.take(rows.len() as int) =~= rows);
            assert forall|n: int| 0 <= n < rows.len() implies (#[trigger] rows[n]).1.wf() by {
                lemma_entry(rows, n);
            }
            lemma_listing(rows);
        }
        r
    }

    /// The rows themselves.
    pub fn into_rows(self) -> (r: KeyedMap<PrincipalData, KeyedMap<AssetIdentifier, V>>)
        ensures
            r == self.rows(),
    {
        self.rows
    }
}

/// A principal and an asset have an entry exactly where the principal has a row and
/// the row has the asset, and it is the row's.
pub proof fn law_rows_are_the_entries<V>(
    rows: Map<PrincipalView, KeyedMap<AssetIdentifier, V>>,
    p: PrincipalView,
    a: AssetView,
)
    ensures
        flatten(rows).contains_key((p, a)) <==> rows.contains_key(p) && rows[p]@.contains_key(a),
        flatten(rows).contains_key((p, a)) ==> flatten(rows)[(p, a)] == rows[p]@[a],
{
}

/// A list of a map holds every entry of it in exactly one place, and nothing else.
pub proof fn law_list_holds_every_entry_once<V>(
    list: Seq<(PrincipalData, AssetIdentifier, V)>,
    map: Map<TransferKey, V>,
    p: PrincipalView,
    a: AssetView,
    v: V,
)
    requires
        lists(list, map),
    ensures
        map.contains_key((p, a)) && map[(p, a)] == v <==> exists|i: int|
            0 <= i < list.len() && (#[trigger] list[i]).0@ == p && list[i].1@ == a && list[i].2 == v,
        forall|i: int, j: int|
            0 <= i < j < list.len() ==> (#[trigger] list[i]).0@ != (#[trigger] list[j]).0@
                || list[i].1@ != list[j].1@,
{
    if map.contains_key((p, a)) && map[(p, a)] == v {
        let i = choose|i: int| 0 <= i < list.len() && #[trigger] listed_key(list[i]) == (p, a);
        assert(list[i].0@ == p && list[i].1@ == a && list[i].2 == v);
    }
    if exists|i: int|
        0 <= i < list.len() && (#[trigger] list[i]).0@ == p && list[i].1@ == a && list[i].2 == v {
        let i = choose|i: int|
            0 <= i < list.len() && (#[trigger] list[i]).0@ == p && list[i].1@ == a && list[i].2 == v;
        assert(map.contains_key(listed_key(list[i])));
    }
    assert forall|i: int, j: int| 0 <= i < j < list.len() implies (#[trigger] list[i]).0@ != (
    #[trigger] list[j]).0@ || list[i].1@ != list[j].1@ by {
        assert(listed_key(list[i]) != listed_key(list[j]));
    }
}

/// Another reading changes the values of a list one by one and nothing else.
pub proof fn law_reading_keeps_places<V, W>(
    list: Seq<(PrincipalData, AssetIdentifier, V)>,
    f: spec_fn(V) -> W,
)
    ensures
        read_as(list, f).len() == list.len(),
        forall|i: int|
            0 <= i < list.len() ==> #[trigger] read_as(list, f)[i] == (
                list[i].0,
                list[i].1,
                f(list[i].2),
            ),
{
}

} // verus!
