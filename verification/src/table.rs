//! Ordered tables of shared records.

use std::sync::Arc;
use vstd::prelude::*;

use crate::id::{bytes_before, lemma_bytes_before_total, lemma_bytes_before_transitive, Id};

verus! {

/// A key with a strict total order.
pub trait Key: Copy {
    /// Whether `self` comes before `other`.
    spec fn before(self, other: Self) -> bool;

    /// Computes `before`.
    fn comes_before(&self, other: &Self) -> (r: bool)
        ensures
            r == self.before(*other),
    ;

    /// The order is total and irreflexive.
    proof fn lemma_total(left: Self, right: Self)
        ensures
            left.before(right) || right.before(left) || left == right,
            !(left.before(right) && right.before(left)),
            !left.before(left),
    ;

    /// The order is transitive.
    proof fn lemma_transitive(first: Self, second: Self, third: Self)
        requires
            first.before(second),
            second.before(third),
        ensures
            first.before(third),
    ;
}

impl Key for Id {
    open spec fn before(self, other: Self) -> bool {
        bytes_before(self.0@, other.0@)
    }

    fn comes_before(&self, other: &Self) -> (r: bool) {
        self.precedes(other)
    }

    proof fn lemma_total(left: Self, right: Self) {
        lemma_bytes_before_total(left, right);
    }

    proof fn lemma_transitive(first: Self, second: Self, third: Self) {
        lemma_bytes_before_transitive(first, second, third);
    }
}

/// A record of which it is known when another is the same.
pub trait Record: Sized {
    /// Whether two records are the same.
    spec fn same_record(self, other: Self) -> bool;
}

/// A record that code can compare with another.
pub trait Comparable: Record {
    /// Computes `same_record`.
    fn is_same_record(&self, other: &Self) -> (r: bool)
        ensures
            r == self.same_record(*other),
    ;
}

/// Whether two tables hold the same records, but for those that are excepted.
#[verifier::opaque]
pub open spec fn agrees<K, V: Record>(
    before: Map<K, V>,
    after: Map<K, V>,
    excepted: spec_fn(K) -> bool,
) -> bool {
    forall|key: K|
        #![trigger before.contains_key(key)]
        #![trigger after.contains_key(key)]
        !excepted(key) ==> {
            &&& after.contains_key(key) == before.contains_key(key)
            &&& before.contains_key(key) ==> after[key].same_record(before[key])
        }
}

/// Excepts one key, if one is given.
pub open spec fn only<K>(except: Option<K>) -> spec_fn(K) -> bool {
    |key: K| except == Some(key)
}

/// Excepts every number of a scope.
pub open spec fn whole_scope(scope: Id) -> spec_fn(Numbered) -> bool {
    |key: Numbered| key.scope == scope
}

/// A key made of a scope and a number within it, such as a venue and its epoch
/// or a batch and a sequence in it.
#[derive(Clone, Copy, Debug, PartialEq, Eq)]
pub struct Numbered {
    pub scope: Id,
    pub number: u64,
}

impl Key for Numbered {
    open spec fn before(self, other: Self) -> bool {
        bytes_before(self.scope.0@, other.scope.0@) || (self.scope == other.scope && self.number
            < other.number)
    }

    fn comes_before(&self, other: &Self) -> (r: bool) {
        proof {
            lemma_bytes_before_total(self.scope, other.scope);
        }
        self.scope.precedes(&other.scope) || (!other.scope.precedes(&self.scope) && self.number
            < other.number)
    }

    proof fn lemma_total(left: Self, right: Self) {
        lemma_bytes_before_total(left.scope, right.scope);
        lemma_bytes_before_total(left.scope, left.scope);
    }

    proof fn lemma_transitive(first: Self, second: Self, third: Self) {
        if bytes_before(first.scope.0@, second.scope.0@) && bytes_before(
            second.scope.0@,
            third.scope.0@,
        ) {
            lemma_bytes_before_transitive(first.scope, second.scope, third.scope);
        }
    }
}

#[derive(Debug, PartialEq, Eq)]
struct Entry<K, V> {
    key: K,
    value: Arc<V>,
}

/// A map from keys to records, kept in the order of the keys. A copy of a table
/// shares the records with the table it was made from.
#[derive(Debug, PartialEq, Eq)]
pub struct Table<K: Key, V> {
    entries: Vec<Entry<K, V>>,
}

spec fn ascending<K: Key, V>(entries: Seq<Entry<K, V>>) -> bool {
    forall|i: int, j: int|
        0 <= i < j < entries.len() ==> #[trigger] entries[i].key.before(#[trigger] entries[j].key)
}

spec fn holds<K: Key, V>(entries: Seq<Entry<K, V>>, key: K, at: int) -> bool {
    0 <= at < entries.len() && entries[at].key == key
}

spec fn contents<K: Key, V>(entries: Seq<Entry<K, V>>) -> Map<K, V> {
    Map::new(
        |key: K| exists|at: int| holds(entries, key, at),
        |key: K| *entries[choose|at: int| holds(entries, key, at)].value,
    )
}

proof fn lemma_contents_at<K: Key, V>(entries: Seq<Entry<K, V>>, at: int)
    requires
        ascending(entries),
        0 <= at < entries.len(),
    ensures
        contents(entries).contains_key(entries[at].key),
        contents(entries)[entries[at].key] == *entries[at].value,
{
    let key = entries[at].key;
    assert(holds(entries, key, at));
    let chosen = choose|i: int| holds(entries, key, i);
    assert(holds(entries, key, chosen));
    K::lemma_total(key, key);
    if chosen < at {
        assert(entries[chosen].key.before(entries[at].key));
    } else if at < chosen {
        assert(entries[at].key.before(entries[chosen].key));
    }
}

proof fn lemma_absent<K: Key, V>(entries: Seq<Entry<K, V>>, key: K, at: int)
    requires
        ascending(entries),
        0 <= at <= entries.len(),
        forall|i: int| 0 <= i < at ==> (#[trigger] entries[i]).key.before(key),
        at < entries.len() ==> key.before(entries[at].key),
    ensures
        !contents(entries).contains_key(key),
{
    assert forall|i: int| !holds(entries, key, i) by {
        if holds(entries, key, i) {
            K::lemma_total(key, key);
            if i < at {
                assert(entries[i].key.before(key));
            } else if at < i {
                assert(entries[at].key.before(entries[i].key));
                K::lemma_total(key, entries[at].key);
            }
        }
    }
}

impl<K: Key, V> View for Table<K, V> {
    type V = Map<K, V>;

    closed spec fn view(&self) -> Map<K, V> {
        contents(self.entries@)
    }
}

impl<K: Key, V> Table<K, V> {
    #[verifier::type_invariant]
    spec fn ordered(self) -> bool {
        ascending(self.entries@)
    }

    /// The empty table.
    pub fn new() -> (r: Self)
        ensures
            r@ == Map::<K, V>::empty(),
    {
        let r = Table { entries: Vec::new() };
        assert(r@ =~= Map::<K, V>::empty());
        r
    }

    /// The first place whose key does not come before `key`.
    fn place(&self, key: &K) -> (r: usize)
        ensures
            r <= self.entries@.len(),
            forall|i: int| 0 <= i < r ==> (#[trigger] self.entries@[i]).key.before(*key),
            forall|i: int|
                r <= i < self.entries@.len() ==> !(#[trigger] self.entries@[i]).key.before(*key),
    {
        proof {
            use_type_invariant(&*self);
        }
        let mut low: usize = 0;
        let mut high: usize = self.entries.len();
        while low < high
            invariant
                low <= high <= self.entries@.len(),
                ascending(self.entries@),
                forall|i: int| 0 <= i < low ==> (#[trigger] self.entries@[i]).key.before(*key),
                forall|i: int|
                    high <= i < self.entries@.len() ==> !(#[trigger] self.entries@[i]).key.before(
                        *key,
                    ),
            decreases high - low,
        {
            let middle: usize = low + (high - low) / 2;
            if self.entries[middle].key.comes_before(key) {
                proof {
                    assert forall|i: int| 0 <= i < middle + 1 implies (
                    #[trigger] self.entries@[i]).key.before(*key) by {
                        if i < middle {
                            assert(self.entries@[i].key.before(self.entries@[middle as int].key));
                            K::lemma_transitive(
                                self.entries@[i].key,
                                self.entries@[middle as int].key,
                                *key,
                            );
                        }
                    }
                }
                low = middle + 1;
            } else {
                proof {
                    assert forall|i: int| middle <= i < self.entries@.len() implies !(
                    #[trigger] self.entries@[i]).key.before(*key) by {
                        if middle < i && self.entries@[i].key.before(*key) {
                            assert(self.entries@[middle as int].key.before(self.entries@[i].key));
                            K::lemma_transitive(
                                self.entries@[middle as int].key,
                                self.entries@[i].key,
                                *key,
                            );
                        }
                    }
                }
                high = middle;
            }
        }
        low
    }

    /// The record under `key`.
    pub fn get(&self, key: &K) -> (r: Option<&V>)
        ensures
            match r {
                Some(value) => self@.contains_key(*key) && *value == self@[*key],
                None => !self@.contains_key(*key),
            },
    {
        proof {
            use_type_invariant(&*self);
        }
        let at: usize = self.place(key);
        if at < self.entries.len() && !key.comes_before(&self.entries[at].key) {
            proof {
                K::lemma_total(*key, self.entries@[at as int].key);
                lemma_contents_at(self.entries@, at as int);
            }
            Some(&*self.entries[at].value)
        } else {
            proof {
                lemma_absent(self.entries@, *key, at as int);
            }
            None
        }
    }

    /// Whether there is a record under `key`.
    pub fn contains_key(&self, key: &K) -> (r: bool)
        ensures
            r == self@.contains_key(*key),
    {
        match self.get(key) {
            Some(_) => true,
            None => false,
        }
    }

    /// Puts `value` under `key`, in place of what was there.
    pub fn insert(&mut self, key: K, value: V)
        ensures
            final(self)@ == old(self)@.insert(key, value),
    {
        proof {
            use_type_invariant(&*self);
        }
        let ghost before = self.entries@;
        let at: usize = self.place(&key);
        let mut entries: Vec<Entry<K, V>> = Vec::new();
        std::mem::swap(&mut entries, &mut self.entries);
        let occupied = at < entries.len() && !key.comes_before(&entries[at].key);
        if occupied {
            proof {
                K::lemma_total(key, before[at as int].key);
            }
            let removed = entries.remove(at);
        }
        entries.insert(at, Entry { key, value: Arc::new(value) });
        proof {
            lemma_inserted(before, entries@, key, value, at as int, occupied);
        }
        self.entries = entries;
    }

    /// Whether nothing is in the table.
    pub fn is_empty(&self) -> (r: bool)
        ensures
            r ==> forall|key: K| !(#[trigger] self@.contains_key(key)),
            !r ==> exists|key: K| #[trigger] self@.contains_key(key),
    {
        proof {
            use_type_invariant(&*self);
        }
        if self.entries.len() == 0 {
            proof {
                assert forall|key: K| !self@.contains_key(key) by {
                    assert forall|at: int| !holds(self.entries@, key, at) by {}
                }
            }
            true
        } else {
            proof {
                lemma_contents_at(self.entries@, 0);
                assert(self@.contains_key(self.entries@[0].key));
            }
            false
        }
    }

    /// A copy of the table that shares its records.
    pub fn share(&self) -> (r: Self)
        ensures
            r@ == self@,
    {
        proof {
            use_type_invariant(&*self);
        }
        let mut entries: Vec<Entry<K, V>> = Vec::new();
        let mut index: usize = 0;
        while index < self.entries.len()
            invariant
                index <= self.entries@.len(),
                entries@ == self.entries@.take(index as int),
            decreases self.entries@.len() - index,
        {
            let entry = &self.entries[index];
            entries.push(Entry { key: entry.key, value: Arc::clone(&entry.value) });
            assert(entries@ =~= self.entries@.take(index + 1));
            index = index + 1;
        }
        assert(entries@ =~= self.entries@);
        Table { entries }
    }

    /// Whether every key of another table is a key of this one.
    pub fn has_keys_of<W>(&self, other: &Table<K, W>) -> (r: bool)
        ensures
            r == (forall|key: K| #[trigger]
                other@.contains_key(key) ==> self@.contains_key(key)),
    {
        proof {
            use_type_invariant(other);
        }
        let mut index: usize = 0;
        while index < other.entries.len()
            invariant
                index <= other.entries@.len(),
                forall|at: int|
                    0 <= at < index ==> self@.contains_key((#[trigger] other.entries@[at]).key),
            decreases other.entries@.len() - index,
        {
            let key = other.entries[index].key;
            if !self.contains_key(&key) {
                assert(holds(other.entries@, key, index as int));
                assert(other@.contains_key(key));
                return false;
            }
            index = index + 1;
        }
        assert forall|key: K| #[trigger] other@.contains_key(key) implies self@.contains_key(
            key,
        ) by {
            let at = choose|at: int| holds(other.entries@, key, at);
            assert(self@.contains_key(other.entries@[at].key));
        }
        true
    }

    /// The number of records.
    pub closed spec fn count(&self) -> nat {
        self.entries@.len()
    }

    /// The record at a place in the order of keys.
    pub closed spec fn nth(&self, at: int) -> V {
        *self.entries@[at].value
    }

    /// The key at a place in the order of keys.
    pub closed spec fn key_at(&self, at: int) -> K {
        self.entries@[at].key
    }

    /// The number of records. The records by place are the records by key.
    pub fn len(&self) -> (r: usize)
        ensures
            r == self.count(),
            forall|at: int|
                0 <= at < r ==> self@.contains_key(#[trigger] self.key_at(at)) && self.nth(at)
                    == self@[self.key_at(at)],
            forall|key: K| #[trigger]
                self@.contains_key(key) ==> exists|at: int|
                    0 <= at < r && #[trigger] self.nth(at) == self@[key],
    {
        proof {
            use_type_invariant(&*self);
            assert forall|at: int| 0 <= at < self.count() implies self@.contains_key(
                #[trigger] self.key_at(at),
            ) && self.nth(at) == self@[self.key_at(at)] by {
                lemma_contents_at(self.entries@, at);
            }
            assert forall|key: K| #[trigger] self@.contains_key(key) implies exists|at: int|
                0 <= at < self.count() && #[trigger] self.nth(at) == self@[key] by {
                let at = choose|at: int| holds(self.entries@, key, at);
                lemma_contents_at(self.entries@, at);
                assert(self.nth(at) == self@[key]);
            }
        }
        self.entries.len()
    }

    /// The record at a place in the order of keys.
    pub fn at(&self, index: usize) -> (r: &V)
        requires
            index < self.count(),
        ensures
            *r == self.nth(index as int),
            self@.contains_key(self.key_at(index as int)),
            *r == self@[self.key_at(index as int)],
    {
        proof {
            use_type_invariant(&*self);
            lemma_contents_at(self.entries@, index as int);
        }
        &*self.entries[index].value
    }
}

fn is_same_key<K: Key>(left: &K, right: &K) -> (r: bool)
    ensures
        r == (*left == *right),
{
    proof {
        K::lemma_total(*left, *right);
        K::lemma_total(*right, *left);
    }
    !left.comes_before(right) && !right.comes_before(left)
}

impl<K: Key, V: Comparable> Table<K, V> {
    /// Whether the table holds the record of an entry of another table.
    fn has_entry(&self, entry: &Entry<K, V>) -> (r: bool)
        ensures
            r == (self@.contains_key(entry.key) && self@[entry.key].same_record(*entry.value)),
    {
        match self.get(&entry.key) {
            Some(record) => record.is_same_record(&*entry.value),
            None => false,
        }
    }

    /// Whether the table holds the same records as an earlier one, but for that of
    /// one key, if one is given.
    pub fn agrees_but(&self, before: &Table<K, V>, except: Option<K>) -> (r: bool)
        ensures
            r == agrees(before@, self@, only(except)),
    {
        proof {
            reveal(agrees);
            use_type_invariant(&*self);
            use_type_invariant(before);
        }
        let mut index: usize = 0;
        while index < before.entries.len()
            invariant
                index <= before.entries@.len(),
                ascending(before.entries@),
                forall|at: int|
                    0 <= at < index && except != Some((#[trigger] before.entries@[at]).key)
                        ==> self@.contains_key(before.entries@[at].key)
                        && self@[before.entries@[at].key].same_record(*before.entries@[at].value),
            decreases before.entries@.len() - index,
        {
            let entry = &before.entries[index];
            let excepted = match &except {
                Some(key) => is_same_key(key, &entry.key),
                None => false,
            };
            if !excepted && !self.has_entry(entry) {
                proof {
                    reveal(agrees);
                    lemma_contents_at(before.entries@, index as int);
                    assert(before@.contains_key(entry.key));
                }
                return false;
            }
            index = index + 1;
        }
        let mut place: usize = 0;
        while place < self.entries.len()
            invariant
                place <= self.entries@.len(),
                ascending(self.entries@),
                forall|at: int|
                    0 <= at < place && except != Some((#[trigger] self.entries@[at]).key)
                        ==> before@.contains_key(self.entries@[at].key),
            decreases self.entries@.len() - place,
        {
            let key = self.entries[place].key;
            let excepted = match &except {
                Some(other) => is_same_key(other, &key),
                None => false,
            };
            if !excepted && !before.contains_key(&key) {
                proof {
                    reveal(agrees);
                    lemma_contents_at(self.entries@, place as int);
                    assert(self@.contains_key(key));
                }
                return false;
            }
            place = place + 1;
        }
        proof {
            reveal(agrees);
            assert forall|key: K|
                #![trigger before@.contains_key(key)]
                #![trigger self@.contains_key(key)]
                !only(except)(key) implies {
                &&& self@.contains_key(key) == before@.contains_key(key)
                &&& before@.contains_key(key) ==> self@[key].same_record(before@[key])
            } by {
                if before@.contains_key(key) {
                    let at = choose|at: int| holds(before.entries@, key, at);
                    lemma_contents_at(before.entries@, at);
                }
                if self@.contains_key(key) {
                    let at = choose|at: int| holds(self.entries@, key, at);
                    lemma_contents_at(self.entries@, at);
                }
            }
        }
        true
    }
}

impl<V: Comparable> Table<Numbered, V> {
    /// Whether the table holds the same records as an earlier one, but for those of
    /// one scope.
    pub fn agrees_outside(&self, before: &Table<Numbered, V>, scope: &Id) -> (r: bool)
        ensures
            r == agrees(before@, self@, whole_scope(*scope)),
    {
        proof {
            reveal(agrees);
            use_type_invariant(&*self);
            use_type_invariant(before);
        }
        let mut index: usize = 0;
        while index < before.entries.len()
            invariant
                index <= before.entries@.len(),
                ascending(before.entries@),
                forall|at: int|
                    0 <= at < index && (#[trigger] before.entries@[at]).key.scope != *scope
                        ==> self@.contains_key(before.entries@[at].key)
                        && self@[before.entries@[at].key].same_record(*before.entries@[at].value),
            decreases before.entries@.len() - index,
        {
            let entry = &before.entries[index];
            if entry.key.scope != *scope && !self.has_entry(entry) {
                proof {
                    reveal(agrees);
                    lemma_contents_at(before.entries@, index as int);
                    assert(before@.contains_key(entry.key));
                }
                return false;
            }
            index = index + 1;
        }
        let mut place: usize = 0;
        while place < self.entries.len()
            invariant
                place <= self.entries@.len(),
                ascending(self.entries@),
                forall|at: int|
                    0 <= at < place && (#[trigger] self.entries@[at]).key.scope != *scope
                        ==> before@.contains_key(self.entries@[at].key),
            decreases self.entries@.len() - place,
        {
            let key = self.entries[place].key;
            if key.scope != *scope && !before.contains_key(&key) {
                proof {
                    reveal(agrees);
                    lemma_contents_at(self.entries@, place as int);
                    assert(self@.contains_key(key));
                }
                return false;
            }
            place = place + 1;
        }
        proof {
            reveal(agrees);
            assert forall|key: Numbered|
                #![trigger before@.contains_key(key)]
                #![trigger self@.contains_key(key)]
                !whole_scope(*scope)(key) implies {
                &&& self@.contains_key(key) == before@.contains_key(key)
                &&& before@.contains_key(key) ==> self@[key].same_record(before@[key])
            } by {
                if before@.contains_key(key) {
                    let at = choose|at: int| holds(before.entries@, key, at);
                    lemma_contents_at(before.entries@, at);
                }
                if self@.contains_key(key) {
                    let at = choose|at: int| holds(self.entries@, key, at);
                    lemma_contents_at(self.entries@, at);
                }
            }
        }
        true
    }
}

proof fn lemma_inserted<K: Key, V>(
    before: Seq<Entry<K, V>>,
    after: Seq<Entry<K, V>>,
    key: K,
    value: V,
    at: int,
    occupied: bool,
)
    requires
        ascending(before),
        0 <= at <= before.len(),
        forall|i: int| 0 <= i < at ==> (#[trigger] before[i]).key.before(key),
        forall|i: int| at <= i < before.len() ==> !(#[trigger] before[i]).key.before(key),
        occupied == (at < before.len() && !key.before(before[at].key)),
        after == (if occupied {
            before.remove(at)
        } else {
            before
        }).insert(at, Entry { key, value: Arc::new(value) }),
    ensures
        ascending(after),
        contents(after) == contents(before).insert(key, value),
{
    if occupied {
        K::lemma_total(key, before[at].key);
    }
    let shift: int = if occupied { 0 } else { 1 };
    assert forall|i: int, j: int| 0 <= i < j < after.len() implies #[trigger] after[i].key.before(
        #[trigger] after[j].key,
    ) by {
        let low = if i < at { i } else { i - shift };
        let high = if j < at { j } else { j - shift };
        if i == at {
            K::lemma_total(key, before[high].key);
            if occupied {
                assert(before[at].key.before(before[high].key));
            } else if high > at {
                assert(before[at].key.before(before[high].key));
                K::lemma_total(key, before[at].key);
                K::lemma_transitive(key, before[at].key, before[high].key);
            }
        } else if j == at {
            assert(before[i].key.before(key));
        } else {
            assert(before[low].key.before(before[high].key));
        }
    }
    assert(contents(after) =~= contents(before).insert(key, value)) by {
        assert forall|other: K|
            contents(after).contains_key(other) == contents(before).insert(
                key,
                value,
            ).contains_key(other) by {
            if contents(after).contains_key(other) && other != key {
                let i = choose|i: int| holds(after, other, i);
                let low = if i < at { i } else { i - shift };
                assert(holds(before, other, low));
            }
            if contents(before).contains_key(other) && other != key {
                let i = choose|i: int| holds(before, other, i);
                let high = if i < at { i } else { i + shift };
                assert(holds(after, other, high));
            }
            if other == key {
                assert(holds(after, key, at));
            }
        }
        assert forall|other: K| contents(after).contains_key(other) implies contents(after)[other]
            == contents(before).insert(key, value)[other] by {
            let i = choose|i: int| holds(after, other, i);
            lemma_contents_at(after, i);
            if other == key {
                K::lemma_total(key, key);
                lemma_contents_at(after, at);
            } else {
                let low = if i < at { i } else { i - shift };
                lemma_contents_at(before, low);
            }
        }
    }
}

} // verus!
