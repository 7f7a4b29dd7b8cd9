//! A finite map from text to plain values.

use crate::text::same_text;
use vstd::prelude::*;

verus! {

/// What a list of entries binds, later entries prevailing.
pub open spec fn values_of<V>(entries: Seq<(String, V)>) -> Map<Seq<char>, V>
    decreases entries.len(),
{
    if entries.len() == 0 {
        Map::empty()
    } else {
        values_of(entries.drop_last()).insert(entries.last().0@, entries.last().1)
    }
}

/// A finite map from text to plain values, kept as a list of entries. Where a key
/// is listed more than once its last entry counts.
pub struct TextMap<V: Copy> {
    entries: Vec<(String, V)>,
}

impl<V: Copy> View for TextMap<V> {
    type V = Map<Seq<char>, V>;

    closed spec fn view(&self) -> Map<Seq<char>, V> {
        values_of(self.entries@)
    }
}

proof fn lemma_update_last<V>(entries: Seq<(String, V)>, i: int, entry: (String, V))
    requires
        0 <= i < entries.len(),
        entries[i].0@ == entry.0@,
        forall|j: int| i < j < entries.len() ==> (#[trigger] entries[j]).0@ != entry.0@,
    ensures
        values_of(entries.update(i, entry)) =~= values_of(entries).insert(entry.0@, entry.1),
    decreases entries.len(),
{
    let updated = entries.update(i, entry);
    let last = entries.len() - 1;
    if i < last {
        lemma_update_last(entries.drop_last(), i, entry);
        assert(updated.drop_last() =~= entries.drop_last().update(i, entry));
        assert(entries[last].0@ != entry.0@);
    } else {
        assert(updated.drop_last() =~= entries.drop_last());
    }
}

proof fn lemma_value<V>(entries: Seq<(String, V)>, i: int)
    requires
        0 <= i < entries.len(),
        forall|j: int| i < j < entries.len() ==> (#[trigger] entries[j]).0@ != entries[i].0@,
    ensures
        values_of(entries).contains_key(entries[i].0@),
        values_of(entries)[entries[i].0@] == entries[i].1,
    decreases entries.len(),
{
    let last = entries.len() - 1;
    if i < last {
        let shorter = entries.drop_last();
        assert forall|j: int| i < j < shorter.len() implies (#[trigger] shorter[j]).0@
            != shorter[i].0@ by {
            assert(shorter[j] == entries[j]);
        }
        lemma_value(shorter, i);
        assert(entries[last].0@ != entries[i].0@);
    }
}

proof fn lemma_no_value<V>(entries: Seq<(String, V)>, key: Seq<char>)
    requires
        forall|j: int| 0 <= j < entries.len() ==> (#[trigger] entries[j]).0@ != key,
    ensures
        !values_of(entries).contains_key(key),
    decreases entries.len(),
{
    if entries.len() > 0 {
        let shorter = entries.drop_last();
        assert forall|j: int| 0 <= j < shorter.len() implies (#[trigger] shorter[j]).0@ != key by {
            assert(shorter[j] == entries[j]);
        }
        lemma_no_value(shorter, key);
        assert(entries[entries.len() - 1].0@ != key);
    }
}

impl<V: Copy> TextMap<V> {
    /// An empty map.
    pub fn new() -> (map: TextMap<V>)
        ensures
            map@ == Map::<Seq<char>, V>::empty(),
    {
        TextMap { entries: Vec::new() }
    }

    fn position(&self, key: &str) -> (place: Option<usize>)
        ensures
            match place {
                Some(i) => {
                    &&& i < self.entries.len()
                    &&& self.entries@[i as int].0@ == key@
                    &&& forall|j: int|
                        i < j < self.entries.len() ==> (#[trigger] self.entries@[j]).0@ != key@
                },
                None => forall|j: int|
                    0 <= j < self.entries.len() ==> (#[trigger] self.entries@[j]).0@ != key@,
            },
    {
        let mut i: usize = self.entries.len();
        while i > 0
            invariant
                i <= self.entries.len(),
                forall|j: int|
                    i <= j < self.entries.len() ==> (#[trigger] self.entries@[j]).0@ != key@,
            decreases i,
        {
            i -= 1;
            if same_text(self.entries[i].0.as_str(), key) {
                return Some(i);
            }
        }
        None
    }

    /// The value under `key`, if there is one.
    pub fn get(&self, key: &str) -> (value: Option<V>)
        ensures
            match value {
                Some(value) => self@.contains_key(key@) && self@[key@] == value,
                None => !self@.contains_key(key@),
            },
    {
        match self.position(key) {
            Some(i) => {
                proof {
                    lemma_value(self.entries@, i as int);
                }
                Some(self.entries[i].1)
            },
            None => {
                proof {
                    lemma_no_value(self.entries@, key@);
                }
                None
            },
        }
    }

    /// Puts a value under `key`, in place of what was there.
    pub fn insert(&mut self, key: &str, value: V)
        ensures
            final(self)@ == old(self)@.insert(key@, value),
    {
        let entry = (key.to_owned(), value);
        match self.position(key) {
            Some(i) => {
                proof {
                    lemma_update_last(self.entries@, i as int, entry);
                }
                self.entries.set(i, entry);
            },
            None => {
                assert(self.entries@.push(entry).drop_last() =~= self.entries@);
                self.entries.push(entry);
            },
        }
    }
}

/// A key has the value that was entered for it last.
pub proof fn the_last_value_counts<V>(entries: Seq<(String, V)>, key: String, value: V, other: Seq<char>)
    ensures
        values_of(entries.push((key, value))).contains_key(key@),
        values_of(entries.push((key, value)))[key@] == value,
        other != key@ ==> values_of(entries.push((key, value))).contains_key(other) == values_of(
            entries,
        ).contains_key(other),
        other != key@ && values_of(entries).contains_key(other) ==> values_of(
            entries.push((key, value)),
        )[other] == values_of(entries)[other],
        values_of(Seq::<(String, V)>::empty()) == Map::<Seq<char>, V>::empty(),
{
    assert(entries.push((key, value)).drop_last() =~= entries);
}

} // verus!
