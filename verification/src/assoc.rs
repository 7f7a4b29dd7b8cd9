//! Facts about lists of entries that stand for finite maps.

use vstd::prelude::*;

verus! {

/// The map that a list of entries stands for, later entries prevailing.
pub open spec fn assoc<K, V>(entries: Seq<(K, V)>) -> Map<K, V>
    decreases entries.len(),
{
    if entries.len() == 0 {
        Map::empty()
    } else {
        assoc(entries.drop_last()).insert(entries.last().0, entries.last().1)
    }
}

/// Whether no key is listed twice.
pub open spec fn distinct_keys<K, V>(entries: Seq<(K, V)>) -> bool {
    forall|i: int, j: int|
        0 <= i < j < entries.len() ==> (#[trigger] entries[i]).0 != (#[trigger] entries[j]).0
}

/// A listed entry is in the map.
pub proof fn listed_entries_are_bound<K, V>(entries: Seq<(K, V)>, i: int)
    requires
        distinct_keys(entries),
        0 <= i < entries.len(),
    ensures
        assoc(entries).contains_key(entries[i].0),
        assoc(entries)[entries[i].0] == entries[i].1,
    decreases entries.len(),
{
    let last = entries.len() - 1;
    if i < last {
        let shorter = entries.drop_last();
        assert(distinct_keys(shorter)) by {
            assert forall|a: int, b: int| 0 <= a < b < shorter.len() implies (
            #[trigger] shorter[a]).0 != (#[trigger] shorter[b]).0 by {
                assert(shorter[a] == entries[a] && shorter[b] == entries[b]);
            }
        }
        listed_entries_are_bound(shorter, i);
        assert(entries[i].0 != entries[last].0);
    }
}

/// What is in the map is listed.
pub proof fn bound_keys_are_listed<K, V>(entries: Seq<(K, V)>, key: K) -> (i: int)
    requires
        assoc(entries).contains_key(key),
    ensures
        0 <= i < entries.len(),
        entries[i].0 == key,
    decreases entries.len(),
{
    if entries.last().0 == key {
        entries.len() - 1
    } else {
        let i = bound_keys_are_listed(entries.drop_last(), key);
        assert(entries.drop_last()[i] == entries[i]);
        i
    }
}

/// Changing the value of one entry changes the map there and nowhere else.
pub proof fn updated_entry<K, V>(entries: Seq<(K, V)>, at: int, value: V)
    requires
        distinct_keys(entries),
        0 <= at < entries.len(),
    ensures
        distinct_keys(entries.update(at, (entries[at].0, value))),
        assoc(entries.update(at, (entries[at].0, value))) =~= assoc(entries).insert(
            entries[at].0,
            value,
        ),
    decreases entries.len(),
{
    let entry = (entries[at].0, value);
    let updated = entries.update(at, entry);
    assert forall|a: int, b: int| 0 <= a < b < updated.len() implies (#[trigger] updated[a]).0 != (
    #[trigger] updated[b]).0 by {
        assert(updated[a].0 == entries[a].0);
        assert(updated[b].0 == entries[b].0);
    }
    let last = entries.len() - 1;
    let shorter = entries.drop_last();
    if at < last {
        assert(distinct_keys(shorter)) by {
            assert forall|a: int, b: int| 0 <= a < b < shorter.len() implies (
            #[trigger] shorter[a]).0 != (#[trigger] shorter[b]).0 by {
                assert(shorter[a] == entries[a] && shorter[b] == entries[b]);
            }
        }
        updated_entry(shorter, at, value);
        assert(updated.drop_last() =~= shorter.update(at, entry));
        assert(entries[at].0 != entries[last].0);
    } else {
        assert(updated.drop_last() =~= shorter);
    }
}

/// Taking one entry out takes its key out of the map and nothing else.
pub proof fn removed_entry<K, V>(entries: Seq<(K, V)>, at: int)
    requires
        distinct_keys(entries),
        0 <= at < entries.len(),
    ensures
        distinct_keys(entries.remove(at)),
        assoc(entries.remove(at)) =~= assoc(entries).remove(entries[at].0),
{
    let rest = entries.remove(at);
    let gone = entries[at].0;
    assert forall|i: int, j: int| 0 <= i < j < rest.len() implies (#[trigger] rest[i]).0 != (
    #[trigger] rest[j]).0 by {
        let a = if i < at { i } else { i + 1 };
        let b = if j < at { j } else { j + 1 };
        assert(rest[i] == entries[a] && rest[j] == entries[b]);
    }
    let left = assoc(rest);
    let expected = assoc(entries).remove(gone);
    assert forall|key: K|
        #![trigger left.dom().contains(key)]
        #![trigger expected.dom().contains(key)]
        left.dom().contains(key) == expected.dom().contains(key) && (left.dom().contains(key)
            ==> left[key] == expected[key]) by {
        if left.contains_key(key) {
            let i = bound_keys_are_listed(rest, key);
            listed_entries_are_bound(rest, i);
            let a = if i < at { i } else { i + 1 };
            assert(rest[i] == entries[a]);
            listed_entries_are_bound(entries, a);
            if a < at {
                assert(entries[a].0 != entries[at].0);
            } else {
                assert(entries[at].0 != entries[a].0);
            }
        }
        if key != gone && assoc(entries).contains_key(key) {
            let a = bound_keys_are_listed(entries, key);
            listed_entries_are_bound(entries, a);
            let i = if a < at { a } else { a - 1 };
            assert(rest[i] == entries[a]);
            listed_entries_are_bound(rest, i);
        }
    }
}

} // verus!
