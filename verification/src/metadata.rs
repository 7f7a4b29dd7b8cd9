//! String-to-string metadata attached to requests, attempts and responses.

use crate::text::{bool_chars, bool_text, decimal, decimal_text, has_prefix, same_text, starts_with};
use vstd::prelude::*;

verus! {

broadcast use vstd::map_lib::group_map_union;

/// The meaning of a metadata value: what each key is bound to.
pub type Bindings = Map<Seq<char>, Seq<char>>;

/// What a list of entries binds, later entries prevailing.
pub open spec fn bindings_of(entries: Seq<(String, String)>) -> Bindings
    decreases entries.len(),
{
    if entries.len() == 0 {
        Map::empty()
    } else {
        bindings_of(entries.drop_last()).insert(entries.last().0@, entries.last().1@)
    }
}

/// Whether the entry at `i` is the last one of its key.
pub open spec fn prevails(entries: Seq<(String, String)>, i: int) -> bool {
    &&& 0 <= i < entries.len()
    &&& forall|j: int|
        i < j < entries.len() ==> (#[trigger] entries[j]).0@ != entries[i].0@
}

/// Metadata: a finite map from text to text, kept as a list of entries. Where a
/// key is listed more than once its last entry counts.
pub struct Metadata {
    entries: Vec<(String, String)>,
}

impl View for Metadata {
    type V = Bindings;

    closed spec fn view(&self) -> Bindings {
        bindings_of(self.entries@)
    }
}

proof fn lemma_unbound(entries: Seq<(String, String)>, key: Seq<char>)
    requires
        forall|i: int| 0 <= i < entries.len() ==> (#[trigger] entries[i]).0@ != key,
    ensures
        !bindings_of(entries).contains_key(key),
    decreases entries.len(),
{
    if entries.len() > 0 {
        let shorter = entries.drop_last();
        assert forall|i: int| 0 <= i < shorter.len() implies (#[trigger] shorter[i]).0@ != key by {
            assert(shorter[i] == entries[i]);
        }
        lemma_unbound(shorter, key);
        assert(entries[entries.len() - 1].0@ != key);
    }
}

proof fn lemma_bound(entries: Seq<(String, String)>, i: int)
    requires
        prevails(entries, i),
    ensures
        bindings_of(entries).contains_key(entries[i].0@),
        bindings_of(entries)[entries[i].0@] == entries[i].1@,
    decreases entries.len(),
{
    let last = entries.len() - 1;
    if i < last {
        let shorter = entries.drop_last();
        assert(prevails(shorter, i));
        lemma_bound(shorter, i);
        assert(entries[last].0@ != entries[i].0@);
    }
}

proof fn lemma_rebound(entries: Seq<(String, String)>, i: int, entry: (String, String))
    requires
        prevails(entries, i),
        entry.0@ == entries[i].0@,
    ensures
        bindings_of(entries.update(i, entry)) =~= bindings_of(entries).insert(entry.0@, entry.1@),
    decreases entries.len(),
{
    let updated = entries.update(i, entry);
    let last = entries.len() - 1;
    let shorter = entries.drop_last();
    if i < last {
        assert(prevails(shorter, i));
        lemma_rebound(shorter, i, entry);
        assert(updated.drop_last() =~= shorter.update(i, entry));
        assert(entries[last].0@ != entries[i].0@);
    } else {
        assert(updated.drop_last() =~= shorter);
    }
}

impl Metadata {
    /// The entries in the order in which their keys were first bound.
    pub closed spec fn listed(&self) -> Seq<(String, String)> {
        self.entries@
    }

    /// Empty metadata.
    pub fn new() -> (metadata: Metadata)
        ensures
            metadata@ == Bindings::empty(),
    {
        Metadata { entries: Vec::new() }
    }

    /// Whether nothing is bound.
    pub fn is_empty(&self) -> (empty: bool)
        ensures
            empty == (self@ == Bindings::empty()),
    {
        let empty = self.entries.len() == 0;
        proof {
            if !empty {
                assert(self@.contains_key(self.entries@.last().0@));
            }
        }
        empty
    }

    /// Number of entries.
    pub fn len(&self) -> (count: usize)
        ensures
            count == self.listed().len(),
            self@ == bindings_of(self.listed()),
    {
        self.entries.len()
    }

    /// The key of the entry at the given place.
    pub fn key_at(&self, i: usize) -> (key: &String)
        requires
            i < self.listed().len(),
        ensures
            *key == self.listed()[i as int].0,
    {
        &self.entries[i].0
    }

    /// The value of the entry at the given place.
    pub fn value_at(&self, i: usize) -> (value: &String)
        requires
            i < self.listed().len(),
        ensures
            *value == self.listed()[i as int].1,
    {
        &self.entries[i].1
    }

    fn position(&self, key: &str) -> (place: Option<usize>)
        ensures
            match place {
                Some(i) => prevails(self.entries@, i as int) && self.entries@[i as int].0@ == key@,
                None => forall|j: int|
                    0 <= j < self.entries.len() ==> (#[trigger] self.entries@[j]).0@ != key@,
            },
    {
        let mut i: usize = self.entries.len();
        while i > 0
            invariant
                i <= self.entries.len(),
                forall|j: int|
                    i <= j < self.entries.len() ==> (#[trigger] self.entries@[j]).0@ != key@,
            decreases i,
        {
            i -= 1;
            if same_text(self.entries[i].0.as_str(), key) {
                return Some(i);
            }
        }
        None
    }

    /// What `key` is bound to, if it is bound.
    pub fn get(&self, key: &str) -> (value: Option<&String>)
        ensures
            match value {
                Some(value) => self@.contains_key(key@) && self@[key@] == value@,
                None => !self@.contains_key(key@),
            },
    {
        match self.position(key) {
            Some(i) => {
                proof {
                    lemma_bound(self.entries@, i as int);
                }
                Some(&self.entries[i].1)
            },
            None => {
                proof {
                    lemma_unbound(self.entries@, key@);
                }
                None
            },
        }
    }

    /// Whether `key` is bound.
    pub fn contains_key(&self, key: &str) -> (bound: bool)
        ensures
            bound == self@.contains_key(key@),
    {
        self.get(key).is_some()
    }

    /// Whether `key` is bound to `expected`.
    pub fn reads(&self, key: &str, expected: &str) -> (reads: bool)
        ensures
            reads == bound_to(self@, key@, expected@),
    {
        match self.get(key) {
            Some(value) => same_text(value.as_str(), expected),
            None => false,
        }
    }

    /// Binds `key` to `value`, in place of what it was bound to.
    pub fn insert(&mut self, key: &str, value: String)
        ensures
            final(self)@ == old(self)@.insert(key@, value@),
    {
        let entry = (key.to_owned(), value);
        match self.position(key) {
            Some(i) => {
                proof {
                    lemma_rebound(self.entries@, i as int, entry);
                }
                self.entries.set(i, entry);
            },
            None => {
                assert(self.entries@.push(entry).drop_last() =~= self.entries@);
                self.entries.push(entry);
            },
        }
    }

    /// Binds `key` to a copy of `value`.
    pub fn set(&mut self, key: &str, value: &str)
        ensures
            final(self)@ == old(self)@.insert(key@, value@),
    {
        self.insert(key, value.to_owned());
    }

    /// Binds `key` to `true` or `false`.
    pub fn set_bool(&mut self, key: &str, value: bool)
        ensures
            final(self)@ == old(self)@.insert(key@, bool_chars(value)),
    {
        self.insert(key, bool_text(value));
    }

    /// Binds `key` to a number in decimal.
    pub fn set_number(&mut self, key: &str, value: u64)
        ensures
            final(self)@ == old(self)@.insert(key@, decimal(value as nat)),
    {
        self.insert(key, decimal_text(value));
    }

    /// Takes over every entry of `other`, in place of what was bound before.
    pub fn extend(&mut self, other: &Metadata)
        ensures
            final(self)@ == old(self)@.union_prefer_right(other@),
    {
        let count: usize = other.len();
        let ghost before = self@;
        let mut i: usize = 0;
        assert(before.union_prefer_right(bindings_of(other.listed().take(0))) =~= before);
        while i < count
            invariant
                i <= count,
                count == other.listed().len(),
                self@ == before.union_prefer_right(bindings_of(other.listed().take(i as int))),
            decreases count - i,
        {
            let ghost next = other.listed().take(i + 1);
            assert(next.drop_last() =~= other.listed().take(i as int));
            self.set(other.key_at(i).as_str(), other.value_at(i).as_str());
            i += 1;
            assert(self@ =~= before.union_prefer_right(bindings_of(next)));
        }
        assert(other.listed().take(count as int) =~= other.listed());
    }

    /// Takes over the entries of `other` whose keys start with `prefix`.
    pub fn extend_with_prefix(&mut self, other: &Metadata, prefix: &str)
        ensures
            final(self)@ == old(self)@.union_prefer_right(with_prefix(other@, prefix@)),
    {
        let count: usize = other.len();
        let ghost before = self@;
        let mut i: usize = 0;
        assert(before.union_prefer_right(with_prefix(bindings_of(other.listed().take(0)), prefix@))
            =~= before);
        while i < count
            invariant
                i <= count,
                count == other.listed().len(),
                self@ == before.union_prefer_right(
                    with_prefix(bindings_of(other.listed().take(i as int)), prefix@),
                ),
            decreases count - i,
        {
            let ghost seen = other.listed().take(i as int);
            let ghost next = other.listed().take(i + 1);
            assert(next.drop_last() =~= seen);
            if starts_with(other.key_at(i).as_str(), prefix) {
                self.set(other.key_at(i).as_str(), other.value_at(i).as_str());
            }
            i += 1;
            assert(self@ =~= before.union_prefer_right(with_prefix(bindings_of(next), prefix@)));
        }
        assert(other.listed().take(count as int) =~= other.listed());
    }

    /// The entries without those of `key`.
    pub fn without(&self, key: &str) -> (rest: Metadata)
        ensures
            rest@ == self@.remove(key@),
    {
        let count: usize = self.len();
        let mut rest = Metadata::new();
        let mut i: usize = 0;
        assert(rest@ =~= bindings_of(self.listed().take(0)).remove(key@));
        while i < count
            invariant
                i <= count,
                count == self.listed().len(),
                rest@ == bindings_of(self.listed().take(i as int)).remove(key@),
            decreases count - i,
        {
            let ghost next = self.listed().take(i + 1);
            assert(next.drop_last() =~= self.listed().take(i as int));
            if !same_text(self.key_at(i).as_str(), key) {
                rest.set(self.key_at(i).as_str(), self.value_at(i).as_str());
            }
            i += 1;
            assert(rest@ =~= bindings_of(next).remove(key@));
        }
        assert(self.listed().take(count as int) =~= self.listed());
        rest
    }

    /// Takes over the binding of `key` from `other`, if there is one.
    pub fn copy_key(&mut self, other: &Metadata, key: &str)
        ensures
            final(self)@ == with_key_of(old(self)@, other@, key@),
    {
        match other.get(key) {
            Some(value) => {
                self.set(key, value.as_str());
            },
            None => {},
        }
    }
}

impl Clone for Metadata {
    fn clone(&self) -> (copy: Metadata)
        ensures
            copy@ == self@,
    {
        let mut copy = Metadata::new();
        copy.extend(self);
        assert(Bindings::empty().union_prefer_right(self@) =~= self@);
        copy
    }
}

/// The bindings whose keys start with `prefix`.
pub open spec fn with_prefix(bindings: Bindings, prefix: Seq<char>) -> Bindings {
    bindings.filter_keys(|key: Seq<char>| has_prefix(key, prefix))
}

/// Whether `key` is bound to `expected`.
pub open spec fn bound_to(bindings: Bindings, key: Seq<char>, expected: Seq<char>) -> bool {
    bindings.contains_key(key) && bindings[key] == expected
}

/// `target` with the binding of `key` taken over from `source`, where it has one.
pub open spec fn with_key_of(target: Bindings, source: Bindings, key: Seq<char>) -> Bindings {
    if source.contains_key(key) {
        target.insert(key, source[key])
    } else {
        target
    }
}

/// What `key` is bound to, if it is bound and the value says something: the
/// values `unset` and `unknown` count as absent.
pub open spec fn stated_value(bindings: Bindings, key: Seq<char>) -> Option<Seq<char>> {
    if bindings.contains_key(key) && bindings[key] != "unset"@ && bindings[key] != "unknown"@ {
        Some(bindings[key])
    } else {
        None
    }
}

/// The metadata value of `key`, unless it is `unset` or `unknown`.
pub fn metadata_value(metadata: &Metadata, key: &str) -> (value: Option<String>)
    ensures
        crate::text::opt_chars(value) == stated_value(metadata@, key@),
{
    match metadata.get(key) {
        Some(value) if !same_text(value.as_str(), "unset") && !same_text(
            value.as_str(),
            "unknown",
        ) => Some(value.clone()),
        _ => None,
    }
}

/// The 32-bit number that the metadata value of `key` spells.
pub open spec fn stated_u32(bindings: Bindings, key: Seq<char>) -> Option<int> {
    match stated_value(bindings, key) {
        Some(text) => crate::text::parsed_unsigned(text, u32::MAX as int),
        None => None,
    }
}

/// The metadata value of `key` as a number.
pub fn metadata_u32(metadata: &Metadata, key: &str) -> (value: Option<u32>)
    ensures
        match value {
            Some(value) => stated_u32(metadata@, key@) == Some(value as int),
            None => stated_u32(metadata@, key@) is None,
        },
{
    match metadata_value(metadata, key) {
        Some(text) => crate::text::parse_u32(text.as_str()),
        None => None,
    }
}

/// Whether `key` is bound to `expected`.
pub fn metadata_has(metadata: &Metadata, key: &str, expected: &str) -> (has: bool)
    ensures
        has == bound_to(metadata@, key@, expected@),
{
    metadata.reads(key, expected)
}

/// What `existing` binds, if it is there, overridden by `additional`.
pub open spec fn merged_bindings(existing: Option<Bindings>, additional: Bindings) -> Bindings {
    match existing {
        Some(existing) => existing.union_prefer_right(additional),
        None => additional,
    }
}

/// The bindings of optional metadata.
pub open spec fn opt_bindings(metadata: Option<Metadata>) -> Option<Bindings> {
    match metadata {
        Some(metadata) => Some(metadata@),
        None => None,
    }
}

/// Merges further metadata into what is there already.
pub fn merge_request_metadata(existing: Option<Metadata>, additional: Metadata) -> (merged:
    Metadata)
    ensures
        merged@ == merged_bindings(opt_bindings(existing), additional@),
{
    match existing {
        Some(existing) => {
            let mut merged = existing;
            merged.extend(&additional);
            merged
        },
        None => additional,
    }
}

/// A key is bound to the last value that was entered for it, and to none without an
/// entry.
pub proof fn the_last_entry_counts(entries: Seq<(String, String)>, i: int, key: Seq<char>)
    ensures
        prevails(entries, i) ==> bindings_of(entries).contains_key(entries[i].0@) && bindings_of(
            entries,
        )[entries[i].0@] == entries[i].1@,
        bindings_of(entries).contains_key(key) ==> exists|j: int|
            0 <= j < entries.len() && (#[trigger] entries[j]).0@ == key,
    decreases entries.len(),
{
    if entries.len() > 0 {
        let before = entries.drop_last();
        the_last_entry_counts(before, i, key);
        if prevails(entries, i) && i < entries.len() - 1 {
            assert(before[i] == entries[i]);
            assert forall|j: int| i < j < before.len() implies (#[trigger] before[j]).0@
                != before[i].0@ by {
                assert(before[j] == entries[j]);
            }
            assert(prevails(before, i));
            assert(entries[entries.len() - 1].0@ != entries[i].0@);
        }
        if bindings_of(entries).contains_key(key) {
            if entries.last().0@ == key {
                assert(entries[entries.len() - 1].0@ == key);
            } else {
                let j = choose|j: int| 0 <= j < before.len() && (#[trigger] before[j]).0@ == key;
                assert(entries[j] == before[j]);
            }
        }
    }
}

/// Bindings are taken over as they are: those whose key has the prefix, or the one under
/// a key; nothing else changes.
pub proof fn bindings_are_taken_over(
    target: Bindings,
    source: Bindings,
    prefix: Seq<char>,
    key: Seq<char>,
    other: Seq<char>,
)
    ensures
        with_prefix(source, prefix).contains_key(key) <==> source.contains_key(key) && has_prefix(
            key,
            prefix,
        ),
        with_prefix(source, prefix).contains_key(key) ==> with_prefix(source, prefix)[key]
            == source[key],
        source.contains_key(key) ==> with_key_of(target, source, key).contains_key(key)
            && with_key_of(target, source, key)[key] == source[key],
        !source.contains_key(key) ==> with_key_of(target, source, key) == target,
        other != key ==> with_key_of(target, source, key).contains_key(other)
            == target.contains_key(other),
        other != key && target.contains_key(other) ==> with_key_of(target, source, key)[other]
            == target[other],
{
}

/// A value is stated where it is bound and says something; a number where it is one.
pub proof fn values_are_stated(bindings: Bindings, key: Seq<char>, number: u32)
    ensures
        !bindings.contains_key(key) ==> stated_value(bindings, key) is None,
        bindings.contains_key(key) && bindings[key] == "unset"@ ==> stated_value(bindings, key)
            is None,
        bindings.contains_key(key) && bindings[key] == "unknown"@ ==> stated_value(bindings, key)
            is None,
        bindings.contains_key(key) && bindings[key] != "unset"@ && bindings[key] != "unknown"@
            ==> stated_value(bindings, key) == Some(bindings[key]),
        bindings.contains_key(key) && bindings[key] == crate::text::decimal(number as nat)
            ==> stated_u32(bindings, key) == Some(number as int),
{
    crate::text::decimal_parses_to_itself(number as nat, u32::MAX as int);
    crate::text::decimal_reads_back(number as nat);
    reveal_strlit("unset");
    reveal_strlit("unknown");
    assert("unset"@[0] == 'u');
    assert("unknown"@[0] == 'u');
    assert(crate::text::is_digit(crate::text::decimal(number as nat)[0]));
}

/// What is added prevails over what is there, and what is there stays otherwise.
pub proof fn added_metadata_prevail(existing: Bindings, additional: Bindings, key: Seq<char>)
    ensures
        additional.contains_key(key) ==> merged_bindings(Some(existing), additional)[key]
            == additional[key],
        !additional.contains_key(key) && existing.contains_key(key) ==> merged_bindings(
            Some(existing),
            additional,
        )[key] == existing[key],
        merged_bindings(Some(existing), additional).contains_key(key) <==> existing.contains_key(
            key,
        ) || additional.contains_key(key),
        merged_bindings(None, additional) == additional,
{
}

} // verus!
