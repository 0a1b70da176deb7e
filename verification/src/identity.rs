//! Containers keyed by the fingerprint of a (name, version) pair: a set of
//! identities seen, and a map that counts how often each was seen.

use crate::hash::{fingerprint, fnv_key};
use crate::version::{Version, VersionView};
use std::collections::{BTreeMap, BTreeSet};
use vstd::prelude::*;
use vstd::std_specs::cmp::OrdSpec;
use vstd::std_specs::btree::{
    increasing_seq, spec_btree_keys_iter, spec_btree_map_iter, spec_keys_iter,
};
use vstd::std_specs::iter::IteratorSpec;

verus! {

broadcast use {vstd::std_specs::btree::group_btree_axioms, vstd::laws_cmp::group_laws_cmp};

/// The identities seen so far, each held as its fingerprint.
#[derive(Debug)]
pub struct CrateMapping(BTreeSet<u64>);

impl View for CrateMapping {
    type V = Set<u64>;

    closed spec fn view(&self) -> Set<u64> {
        self.0@
    }
}

impl CrateMapping {
    /// The empty set.
    pub fn new() -> (set: CrateMapping)
        ensures
            set@ == Set::<u64>::empty(),
    {
        CrateMapping(BTreeSet::new())
    }

    /// The set of the given fingerprints.
    pub fn from(keys: Vec<u64>) -> (set: CrateMapping)
        ensures
            set@ == keys@.to_set(),
    {
        let mut set = BTreeSet::new();
        let mut i: usize = 0;
        while i < keys.len()
            invariant
                i <= keys.len(),
                set@ == keys@.take(i as int).to_set(),
            decreases keys.len() - i,
        {
            set.insert(keys[i]);
            proof {
                let a = keys@.take(i as int);
                let b = keys@.take(i + 1);
                let last = keys@[i as int];
                assert(b =~= a.push(last));
                assert forall|x: u64| b.contains(x) <==> (a.contains(x) || x == last) by {
                    if b.contains(x) {
                        let j = choose|j: int| 0 <= j < b.len() && b[j] == x;
                        if j < i {
                            assert(a[j] == x);
                        }
                    }
                    if a.contains(x) {
                        let j = choose|j: int| 0 <= j < a.len() && a[j] == x;
                        assert(b[j] == x);
                    }
                    if x == last {
                        assert(b[i as int] == x);
                    }
                }
                assert(b.to_set() =~= a.to_set().insert(last));
            }
            i += 1;
        }
        proof {
            assert(keys@.take(keys.len() as int) =~= keys@);
        }
        CrateMapping(set)
    }

    /// Records the identity of the pair. A second insertion of the same pair
    /// changes nothing.
    pub fn insert(&mut self, key: &str, version: &Version)
        ensures
            final(self)@ == old(self)@.insert(fingerprint(key@, version@)),
    {
        let k = fnv_key(key, version);
        self.0.insert(k);
    }

    /// Whether the identity of the pair has been recorded.
    pub fn contains(&self, key: &str, version: &Version) -> (found: bool)
        ensures
            found == self@.contains(fingerprint(key@, version@)),
    {
        let k = fnv_key(key, version);
        self.0.contains(&k)
    }

    /// The number of identities recorded.
    pub fn len(&self) -> (n: usize)
        ensures
            n == self@.len(),
    {
        self.0.len()
    }

    /// The fingerprints recorded, each once.
    pub fn keys(&self) -> (list: Vec<u64>)
        ensures
            list@.no_duplicates(),
            list@.to_set() == self@,
    {
        let mut list: Vec<u64> = Vec::new();
        let ghost all = spec_btree_keys_iter(&self.0).remaining();
        for key in it: self.0.iter()
            invariant
                it.seq() == all,
                list@.len() == it.index(),
                forall|j: int| 0 <= j < list@.len() ==> list@[j] == *all[j],
        {
            list.push(*key);
        }
        proof {
            assert(list@ =~= all.unref());
        }
        list
    }
}

/// What one more occurrence of the identity `key` makes of the counts `m`:
/// an identity not yet counted starts from zero.
pub open spec fn counted(m: Map<u64, usize>, key: u64) -> Map<u64, usize> {
    m.insert(
        key,
        if m.contains_key(key) {
            (m[key] + 1) as usize
        } else {
            1
        },
    )
}

/// The count that the counts `m` hold for the identity `key`: zero where it
/// is no key.
pub open spec fn count_in(m: Map<u64, usize>, key: u64) -> nat {
    if m.contains_key(key) {
        m[key] as nat
    } else {
        0
    }
}

/// `counted` applied `times` times.
pub open spec fn counted_times(m: Map<u64, usize>, key: u64, times: nat) -> Map<u64, usize>
    decreases times,
{
    if times == 0 {
        m
    } else {
        counted(counted_times(m, key, (times - 1) as nat), key)
    }
}

/// How often each identity occurred, each identity held as its fingerprint.
#[derive(Clone, Debug)]
pub struct CrateLegend(BTreeMap<u64, usize>);

impl View for CrateLegend {
    type V = Map<u64, usize>;

    closed spec fn view(&self) -> Map<u64, usize> {
        self.0@
    }
}

impl CrateLegend {
    /// The number of occurrences that the map holds for the pair: zero where
    /// its identity is no key.
    pub open spec fn occurrences(&self, key: Seq<char>, version: VersionView) -> nat {
        count_in(self@, fingerprint(key, version))
    }

    /// The map that counts nothing.
    pub fn new() -> (legend: CrateLegend)
        ensures
            legend@ == Map::<u64, usize>::empty(),
    {
        CrateLegend(BTreeMap::new())
    }

    /// Counts one more occurrence of the pair: its count goes up by one, from
    /// zero where the identity was not counted before. No other count changes.
    pub fn insert(&mut self, key: &str, version: &Version)
        requires
            old(self).occurrences(key@, version@) < usize::MAX,
        ensures
            final(self)@ == counted(old(self)@, fingerprint(key@, version@)),
            final(self).occurrences(key@, version@) == old(self).occurrences(key@, version@) + 1,
    {
        let k = fnv_key(key, version);
        let seen: usize = match self.0.get(&k) {
            Some(n) => *n,
            None => 0,
        };
        self.0.insert(k, seen + 1);
    }

    /// Whether the identity of the pair is a key of the map, whatever its
    /// count: a traversal skips such a pair.
    pub fn excluded(&self, key: &str, version: &Version) -> (found: bool)
        ensures
            found == self@.contains_key(fingerprint(key@, version@)),
    {
        let k = fnv_key(key, version);
        self.0.contains_key(&k)
    }

    /// The count that the map holds for the pair.
    pub fn count(&self, key: &str, version: &Version) -> (n: usize)
        ensures
            n == self.occurrences(key@, version@),
    {
        let k = fnv_key(key, version);
        match self.0.get(&k) {
            Some(n) => *n,
            None => 0,
        }
    }

    /// The number of identities counted.
    pub fn len(&self) -> (n: usize)
        ensures
            n == self@.dom().len(),
    {
        self.0.len()
    }

    /// The identities counted, each once with its count, in increasing order
    /// of fingerprint.
    pub fn entries(&self) -> (list: Vec<(u64, usize)>)
        ensures
            forall|i: int, j: int| 0 <= i < j < list@.len() ==> list@[i].0 < list@[j].0,
            list@.no_duplicates(),
            list@.to_set() == self@.kv_pairs(),
    {
        let mut list: Vec<(u64, usize)> = Vec::new();
        let ghost all = spec_btree_map_iter(&self.0).remaining();
        let iter = self.0.iter();
        let ghost keys = all.map_values(|kv: (&u64, &usize)| *kv.0);
        proof {
            assert(increasing_seq(keys));
        }
        for pair in it: iter
            invariant
                it.seq() == all,
                list@.len() == it.index(),
                forall|j: int| 0 <= j < list@.len() ==> list@[j] == (*all[j].0, *all[j].1),
        {
            list.push((*pair.0, *pair.1));
        }
        proof {
            assert(list@ =~= all.unref());
            assert forall|i: int, j: int| 0 <= i < j < list@.len() implies list@[i].0
                < list@[j].0 by {
                assert(keys[i].cmp_spec(&keys[j]) is Less);
            }
        }
        list
    }

    /// The map that a list of entries gives. Where a fingerprint has two
    /// entries, the later one counts.
    pub fn from_entries(list: Vec<(u64, usize)>) -> (legend: CrateLegend)
        ensures
            legend@ == entries_map(list@),
    {
        let mut counts: BTreeMap<u64, usize> = BTreeMap::new();
        let mut i: usize = 0;
        while i < list.len()
            invariant
                i <= list.len(),
                counts@ == entries_map(list@.take(i as int)),
            decreases list.len() - i,
        {
            let entry = list[i];
            counts.insert(entry.0, entry.1);
            proof {
                assert(list@.take(i + 1).drop_last() =~= list@.take(i as int));
            }
            i += 1;
        }
        proof {
            assert(list@.take(list.len() as int) =~= list@);
        }
        CrateLegend(counts)
    }

    /// Whether two maps count the same identities, whatever the counts.
    pub fn same_keys(&self, other: &CrateLegend) -> (same: bool)
        ensures
            same == (self@.dom() == other@.dom()),
    {
        if self.0.len() != other.0.len() {
            return false;
        }
        let ghost all = spec_keys_iter(&self.0).remaining();
        for key in it: self.0.keys()
            invariant
                it.seq() == all,
                forall|j: int| 0 <= j < it.index() ==> other@.contains_key(*all[j]),
        {
            if !other.0.contains_key(key) {
                proof {
                    assert(all.unref()[it.index()] == *key);
                    assert(all.unref().to_set().contains(*key));
                }
                return false;
            }
        }
        proof {
            assert forall|k: u64| self@.dom().contains(k) implies other@.dom().contains(k) by {
                assert(all.unref().to_set().contains(k));
                let j = choose|j: int| 0 <= j < all.unref().len() && all.unref()[j] == k;
                assert(other@.contains_key(*all[j]));
            }
            vstd::set_lib::lemma_subset_equality(self@.dom(), other@.dom());
        }
        true
    }
}

impl PartialEq for CrateLegend {
    /// Two maps are equal where they count the same identities: the counts
    /// are not compared.
    fn eq(&self, other: &CrateLegend) -> (same: bool) {
        self.same_keys(other)
    }
}

impl Eq for CrateLegend {

}

impl vstd::std_specs::cmp::PartialEqSpecImpl for CrateLegend {
    open spec fn obeys_eq_spec() -> bool {
        true
    }

    open spec fn eq_spec(&self, other: &CrateLegend) -> bool {
        self@.dom() == other@.dom()
    }
}

/// The counts that a list of entries gives: a later entry of a fingerprint
/// replaces an earlier one.
pub open spec fn entries_map(list: Seq<(u64, usize)>) -> Map<u64, usize>
    decreases list.len(),
{
    if list.len() == 0 {
        Map::empty()
    } else {
        entries_map(list.drop_last()).insert(list.last().0, list.last().1)
    }
}

/// A list that holds each entry of a map once gives the map back, in whatever
/// order it holds them.
pub proof fn entries_give_map(m: Map<u64, usize>, list: Seq<(u64, usize)>)
    requires
        list.no_duplicates(),
        list.to_set() == m.kv_pairs(),
    ensures
        entries_map(list) == m,
    decreases list.len(),
{
    if list.len() == 0 {
        assert forall|k: u64| !m.contains_key(k) by {
            if m.contains_key(k) {
                assert(m.kv_pairs().contains((k, m[k])));
                assert(list.contains((k, m[k])));
            }
        }
        assert(m =~= Map::empty());
    } else {
        let rest = list.drop_last();
        let last = list.last();
        assert(list.contains(last));
        assert(m.kv_pairs().contains(last));
        let less = m.remove(last.0);
        assert forall|e: (u64, usize)| rest.to_set().contains(e) <==> less.kv_pairs().contains(
            e,
        ) by {
            if rest.contains(e) {
                let j = choose|j: int| 0 <= j < rest.len() && rest[j] == e;
                assert(list[j] == e);
                assert(list.contains(e));
                assert(m.kv_pairs().contains(e));
                if e.0 == last.0 {
                    assert(e == last);
                    assert(list[list.len() - 1] == list[j]);
                }
            }
            if less.kv_pairs().contains(e) {
                assert(m.kv_pairs().contains(e));
                assert(list.contains(e));
                let j = choose|j: int| 0 <= j < list.len() && list[j] == e;
                assert(j < list.len() - 1);
                assert(rest[j] == e);
            }
        }
        assert(rest.to_set() =~= less.kv_pairs());
        entries_give_map(less, rest);
        assert(less.insert(last.0, last.1) =~= m);
    }
}

/// A pair that was counted is excluded afterwards; the exclusion of every
/// identity with another fingerprint is what it was before.
pub proof fn counted_is_excluded(m: Map<u64, usize>, key: u64, other: u64)
    ensures
        counted(m, key).contains_key(key),
        other != key ==> (counted(m, key).contains_key(other) <==> m.contains_key(other)),
        other != key && m.contains_key(other) ==> counted(m, key)[other] == m[other],
        !Map::<u64, usize>::empty().contains_key(other),
{
}

/// No count ever goes down: one more occurrence of an identity raises its
/// count by one and leaves every other count as it was.
pub proof fn counts_never_decrease(m: Map<u64, usize>, key: u64, other: u64)
    requires
        count_in(m, key) < usize::MAX,
    ensures
        count_in(counted(m, key), key) == count_in(m, key) + 1,
        other != key ==> count_in(counted(m, key), other) == count_in(m, other),
        count_in(counted(m, key), other) >= count_in(m, other),
{
}

/// Counting an identity `times` times from the empty map leaves exactly that
/// identity, with the count `times`.
pub proof fn counted_times_counts(key: u64, times: nat)
    requires
        0 < times <= usize::MAX,
    ensures
        counted_times(Map::empty(), key, times) == Map::<u64, usize>::empty().insert(
            key,
            times as usize,
        ),
    decreases times,
{
    let empty = Map::<u64, usize>::empty();
    if times == 1 {
        assert(counted_times(empty, key, 0) == empty);
        assert(counted_times(empty, key, 1) =~= empty.insert(key, 1usize));
    } else {
        counted_times_counts(key, (times - 1) as nat);
        assert(counted_times(empty, key, times) =~= empty.insert(key, times as usize));
    }
}

/// Recording an identity in a set any number of times is recording it once.
pub proof fn set_insert_idempotent(s: Set<u64>, key: u64)
    ensures
        s.insert(key).insert(key) == s.insert(key),
        s.contains(key) ==> s.insert(key) == s,
{
    assert(s.insert(key).insert(key) =~= s.insert(key));
    if s.contains(key) {
        assert(s.insert(key) =~= s);
    }
}

} // verus!
