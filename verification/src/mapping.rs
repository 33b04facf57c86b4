//! A mapping from string keys onto records, as a structured data file may hold one.

use vstd::prelude::*;

use crate::text::str_eq;

verus! {

/// The index of the first entry under `key`, or the number of entries where there is none.
pub open spec fn spec_position<T>(entries: Seq<(Seq<char>, T)>, key: Seq<char>) -> int
    decreases entries.len(),
{
    if entries.len() == 0 || entries[0].0 == key {
        0
    } else {
        1 + spec_position(entries.skip(1), key)
    }
}

/// Whether no key occurs twice.
pub open spec fn spec_keys_distinct<T>(entries: Seq<(Seq<char>, T)>) -> bool {
    forall|i: int, j: int|
        0 <= i < j < entries.len() ==> (#[trigger] entries[i]).0 != (#[trigger] entries[j]).0
}

/// The entries after `record` is put under `key`: a record already under that key is
/// replaced where it stands; a new key comes last.
pub open spec fn spec_insert<T>(entries: Seq<(Seq<char>, T)>, key: Seq<char>, record: T) -> Seq<
    (Seq<char>, T),
> {
    let at = spec_position(entries, key);
    if at < entries.len() {
        entries.update(at, (key, record))
    } else {
        entries.push((key, record))
    }
}

/// The entries after each of `pairs` is put in, in order.
pub open spec fn spec_collect<T>(pairs: Seq<(Seq<char>, T)>) -> Seq<(Seq<char>, T)>
    decreases pairs.len(),
{
    if pairs.len() == 0 {
        Seq::empty()
    } else {
        spec_insert(spec_collect(pairs.drop_last()), pairs.last().0, pairs.last().1)
    }
}

/// The key views of a sequence of pairs.
pub open spec fn pair_views<T>(pairs: Seq<(String, T)>) -> Seq<(Seq<char>, T)> {
    pairs.map_values(|pair: (String, T)| (pair.0@, pair.1))
}

/// `spec_position` stops at the first entry under the key and not before.
pub proof fn lemma_position<T>(entries: Seq<(Seq<char>, T)>, key: Seq<char>)
    ensures
        0 <= spec_position(entries, key) <= entries.len(),
        forall|j: int| 0 <= j < spec_position(entries, key) ==> (#[trigger] entries[j]).0 != key,
        spec_position(entries, key) < entries.len() ==> entries[spec_position(entries, key)].0
            == key,
    decreases entries.len(),
{
    if entries.len() != 0 && entries[0].0 != key {
        let rest = entries.skip(1);
        lemma_position(rest, key);
        assert forall|j: int| 0 <= j < spec_position(entries, key) implies (
        #[trigger] entries[j]).0 != key by {
            if j > 0 {
                assert(rest[j - 1] == entries[j]);
            }
        }
    }
}

/// The first index under the key, or the number of entries where no entry is under it, is
/// the position of the key.
pub proof fn lemma_position_unique<T>(entries: Seq<(Seq<char>, T)>, key: Seq<char>, at: int)
    requires
        0 <= at <= entries.len(),
        forall|j: int| 0 <= j < at ==> (#[trigger] entries[j]).0 != key,
        at < entries.len() ==> entries[at].0 == key,
    ensures
        spec_position(entries, key) == at,
{
    lemma_position(entries, key);
    let found = spec_position(entries, key);
    if found < at {
        assert(entries[found].0 != key);
    }
}

/// Putting a record in keeps the keys distinct, and the key then holds that record.
pub proof fn lemma_insert_keeps_keys_distinct<T>(
    entries: Seq<(Seq<char>, T)>,
    key: Seq<char>,
    record: T,
)
    requires
        spec_keys_distinct(entries),
    ensures
        spec_keys_distinct(spec_insert(entries, key, record)),
        spec_position(spec_insert(entries, key, record), key) == spec_position(entries, key),
        spec_insert(entries, key, record)[spec_position(entries, key)] == (key, record),
{
    lemma_position(entries, key);
    let at = spec_position(entries, key);
    let after = spec_insert(entries, key, record);
    assert forall|i: int, j: int| 0 <= i < j < after.len() implies (#[trigger] after[i]).0 != (
    #[trigger] after[j]).0 by {
        if at < entries.len() {
            assert(after[i].0 == entries[i].0);
            assert(after[j].0 == entries[j].0);
        } else if j == at {
            assert(after[i] == entries[i]);
        } else {
            assert(after[i] == entries[i]);
            assert(after[j] == entries[j]);
        }
    }
    assert forall|j: int| 0 <= j < at implies (#[trigger] after[j]).0 != key by {
        assert(after[j].0 == entries[j].0);
    }
    lemma_position_unique(after, key, at);
}

/// A mapping from string keys onto records. No key occurs twice; the entries stand in the
/// order in which their keys first came.
#[derive(Clone, Debug, PartialEq, Eq)]
pub struct Mapping<T> {
    entries: Vec<(String, T)>,
}

impl<T> View for Mapping<T> {
    type V = Seq<(Seq<char>, T)>;

    closed spec fn view(&self) -> Seq<(Seq<char>, T)> {
        pair_views(self.entries@)
    }
}

impl<T> Mapping<T> {
    /// A mapping is well formed when no key occurs twice in it.
    pub open spec fn wf(&self) -> bool {
        spec_keys_distinct(self@)
    }

    /// The mapping without entries.
    pub fn new() -> (mapping: Mapping<T>)
        ensures
            mapping@ == Seq::<(Seq<char>, T)>::empty(),
            mapping.wf(),
    {
        let mapping = Mapping { entries: Vec::new() };
        assert(pair_views(mapping.entries@) == Seq::<(Seq<char>, T)>::empty());
        mapping
    }

    /// The number of entries.
    pub fn len(&self) -> (len: usize)
        ensures
            len == self@.len(),
    {
        self.entries.len()
    }

    /// Puts `record` under `key`: in place of the record that the key held, or as a new
    /// last entry.
    pub fn insert(&mut self, key: String, record: T)
        requires
            old(self).wf(),
        ensures
            final(self)@ == spec_insert(old(self)@, key@, record),
            final(self).wf(),
    {
        let ghost before = pair_views(self.entries@);
        let mut at: usize = 0;
        let mut found = false;
        while at < self.entries.len() && !found
            invariant
                at <= self.entries.len(),
                before == pair_views(self.entries@),
                forall|j: int| 0 <= j < at ==> (#[trigger] before[j]).0 != key@,
                found ==> at < self.entries.len() && before[at as int].0 == key@,
            decreases self.entries.len() - at + if found { 0int } else { 1int },
        {
            if str_eq(self.entries[at].0.as_str(), key.as_str()) {
                assert(before[at as int].0 == key@);
                found = true;
            } else {
                at += 1;
            }
        }
        proof {
            lemma_position_unique(before, key@, at as int);
            lemma_insert_keeps_keys_distinct(before, key@, record);
        }
        if at < self.entries.len() {
            self.entries.set(at, (key, record));
            assert(pair_views(self.entries@) == before.update(at as int, (key@, record)));
        } else {
            self.entries.push((key, record));
            assert(pair_views(self.entries@) == before.push((key@, record)));
        }
    }

    /// The mapping that holds each of `pairs`, put in one after the other: of two pairs
    /// under one key the later one stays.
    pub fn from_entries(pairs: Vec<(String, T)>) -> (mapping: Mapping<T>)
        ensures
            mapping@ == spec_collect(pair_views(pairs@)),
            mapping.wf(),
    {
        let ghost source = pairs@;
        let ghost views = pair_views(source);
        let mut mapping = Mapping::new();
        for pair in it: pairs
            invariant
                it.seq() == source,
                views == pair_views(source),
                mapping@ == spec_collect(views.take(it.index())),
                mapping.wf(),
        {
            assert(views.take(it.index() + 1).drop_last() == views.take(it.index()));
            assert(views.take(it.index() + 1).last() == (pair.0@, pair.1));
            mapping.insert(pair.0, pair.1);
        }
        assert(views.take(views.len() as int) == views);
        mapping
    }

    /// The records of the mapping without their keys, in the order of the entries.
    pub fn into_records(self) -> (records: Vec<T>)
        ensures
            records@ == self@.map_values(|entry: (Seq<char>, T)| entry.1),
    {
        let ghost source = self.entries@;
        let ghost values = self@.map_values(|entry: (Seq<char>, T)| entry.1);
        let mut records: Vec<T> = Vec::new();
        for entry in it: self.entries
            invariant
                it.seq() == source,
                values.len() == source.len(),
                forall|k: int| 0 <= k < source.len() ==> values[k] == (#[trigger] source[k]).1,
                records@ == values.take(it.index()),
        {
            assert(values.take(it.index() + 1) == values.take(it.index()).push(entry.1));
            records.push(entry.1);
        }
        assert(values.take(values.len() as int) == values);
        records
    }
}

} // verus!
