//! Recognises inputs that come again within a time window.

use crate::clock::since;
use crate::text::same_text;
use vstd::prelude::*;

verus! {

/// Largest number of inputs that are remembered.
pub const MAX_REPEAT_FINGERPRINT_ENTRIES: usize = 1024;

/// How often an input has come, and when it last did.
#[derive(Clone, Copy, Debug, PartialEq, Eq, Structural)]
pub struct RepeatInputEntry {
    pub count: u32,
    pub last_seen_unix_ms: u64,
}

/// What is remembered of an input when it comes.
#[derive(Clone, Copy, Debug, PartialEq, Eq, Structural)]
pub struct RepeatInputObservation {
    pub repeated: bool,
    pub prior_count: u32,
}

impl Default for RepeatInputObservation {
    fn default() -> (observation: RepeatInputObservation)
        ensures
            observation == (RepeatInputObservation { repeated: false, prior_count: 0 }),
    {
        RepeatInputObservation { repeated: false, prior_count: 0 }
    }
}

/// What is remembered of each fingerprint.
pub type Remembered = Map<Seq<char>, RepeatInputEntry>;

/// What a list of entries remembers.
pub open spec fn remembered_by(entries: Seq<(String, RepeatInputEntry)>) -> Remembered
    decreases entries.len(),
{
    if entries.len() == 0 {
        Map::empty()
    } else {
        remembered_by(entries.drop_last()).insert(entries.last().0@, entries.last().1)
    }
}

/// Whether no fingerprint is listed twice.
pub open spec fn distinct(entries: Seq<(String, RepeatInputEntry)>) -> bool {
    forall|i: int, j: int|
        0 <= i < j < entries.len() ==> (#[trigger] entries[i]).0@ != (#[trigger] entries[j]).0@
}

/// The inputs that are remembered.
pub struct RepeatInputCache {
    entries: Vec<(String, RepeatInputEntry)>,
}

impl View for RepeatInputCache {
    type V = Remembered;

    closed spec fn view(&self) -> Remembered {
        remembered_by(self.entries@)
    }
}

proof fn lemma_distinct_prefix(entries: Seq<(String, RepeatInputEntry)>)
    requires
        distinct(entries),
        entries.len() > 0,
    ensures
        distinct(entries.drop_last()),
{
    let shorter = entries.drop_last();
    assert forall|i: int, j: int| 0 <= i < j < shorter.len() implies (
    #[trigger] shorter[i]).0@ != (#[trigger] shorter[j]).0@ by {
        assert(shorter[i] == entries[i] && shorter[j] == entries[j]);
    }
}

proof fn lemma_not_remembered(entries: Seq<(String, RepeatInputEntry)>, key: Seq<char>)
    requires
        forall|i: int| 0 <= i < entries.len() ==> (#[trigger] entries[i]).0@ != key,
    ensures
        !remembered_by(entries).contains_key(key),
    decreases entries.len(),
{
    if entries.len() > 0 {
        let shorter = entries.drop_last();
        assert forall|i: int| 0 <= i < shorter.len() implies (#[trigger] shorter[i]).0@ != key by {
            assert(shorter[i] == entries[i]);
        }
        lemma_not_remembered(shorter, key);
        assert(entries[entries.len() - 1].0@ != key);
    }
}

proof fn lemma_listed(entries: Seq<(String, RepeatInputEntry)>, i: int)
    requires
        distinct(entries),
        0 <= i < entries.len(),
    ensures
        remembered_by(entries).contains_key(entries[i].0@),
        remembered_by(entries)[entries[i].0@] == entries[i].1,
    decreases entries.len(),
{
    let last = entries.len() - 1;
    if i < last {
        lemma_distinct_prefix(entries);
        lemma_listed(entries.drop_last(), i);
        assert(entries.drop_last()[i] == entries[i]);
        assert(entries[i].0@ != entries[last].0@);
    }
}

proof fn lemma_found(entries: Seq<(String, RepeatInputEntry)>, key: Seq<char>) -> (i: int)
    requires
        remembered_by(entries).contains_key(key),
    ensures
        0 <= i < entries.len(),
        entries[i].0@ == key,
    decreases entries.len(),
{
    if entries.last().0@ == key {
        entries.len() - 1
    } else {
        let i = lemma_found(entries.drop_last(), key);
        assert(entries.drop_last()[i] == entries[i]);
        i
    }
}

proof fn lemma_count(entries: Seq<(String, RepeatInputEntry)>)
    requires
        distinct(entries),
    ensures
        remembered_by(entries).dom().finite(),
        remembered_by(entries).dom().len() == entries.len(),
    decreases entries.len(),
{
    if entries.len() > 0 {
        lemma_distinct_prefix(entries);
        lemma_count(entries.drop_last());
        let last = entries.last().0@;
        assert forall|i: int| 0 <= i < entries.drop_last().len() implies (
        #[trigger] entries.drop_last()[i]).0@ != last by {
            assert(entries.drop_last()[i] == entries[i]);
            assert(entries[entries.len() - 1].0@ == last);
        }
        lemma_not_remembered(entries.drop_last(), last);
        let before = remembered_by(entries.drop_last()).dom();
        assert(remembered_by(entries).dom() =~= before.insert(last));
    }
}

/// Removing one entry forgets its fingerprint and nothing else.
proof fn lemma_removed(entries: Seq<(String, RepeatInputEntry)>, at: int)
    requires
        distinct(entries),
        0 <= at < entries.len(),
    ensures
        distinct(entries.remove(at)),
        remembered_by(entries.remove(at)) =~= remembered_by(entries).remove(entries[at].0@),
{
    let rest = entries.remove(at);
    let gone = entries[at].0@;
    assert forall|i: int, j: int| 0 <= i < j < rest.len() implies (#[trigger] rest[i]).0@ != (
    #[trigger] rest[j]).0@ by {
        let a = if i < at { i } else { i + 1 };
        let b = if j < at { j } else { j + 1 };
        assert(rest[i] == entries[a] && rest[j] == entries[b]);
    }
    assert forall|i: int| 0 <= i < rest.len() implies (#[trigger] rest[i]).0@ != gone by {
        let a = if i < at { i } else { i + 1 };
        assert(rest[i] == entries[a]);
        if a < at {
            assert(entries[a].0@ != entries[at].0@);
        } else {
            assert(entries[at].0@ != entries[a].0@);
        }
    }
    lemma_not_remembered(rest, gone);
    let left = remembered_by(rest);
    let expected = remembered_by(entries).remove(gone);
    assert forall|key: Seq<char>|
        #![trigger left.dom().contains(key)]
        #![trigger expected.dom().contains(key)]
        left.dom().contains(key) == expected.dom().contains(key) && (left.dom().contains(key)
            ==> left[key] == expected[key]) by {
        if remembered_by(rest).contains_key(key) {
            let i = lemma_found(rest, key);
            lemma_listed(rest, i);
            let a = if i < at { i } else { i + 1 };
            assert(rest[i] == entries[a]);
            lemma_listed(entries, a);
        }
        if key != gone && remembered_by(entries).contains_key(key) {
            let a = lemma_found(entries, key);
            lemma_listed(entries, a);
            let i = if a < at { a } else { a - 1 };
            assert(rest[i] == entries[a]);
            lemma_listed(rest, i);
        }
    }
}

/// Whether an entry is recent enough to count.
pub open spec fn is_recent(entry: RepeatInputEntry, now_unix_ms: u64, window_ms: u64) -> bool {
    since(now_unix_ms, entry.last_seen_unix_ms) <= window_ms
}

/// What is left after old entries have been forgotten.
pub open spec fn recent_only(remembered: Remembered, now_unix_ms: u64, window_ms: u64) -> Remembered {
    Map::new(
        |key: Seq<char>|
            remembered.contains_key(key) && is_recent(remembered[key], now_unix_ms, window_ms),
        |key: Seq<char>| remembered[key],
    )
}

/// The length of a window of whole seconds, in milliseconds.
pub open spec fn window_millis(window_secs: u64) -> u64 {
    if window_secs * 1_000 <= u64::MAX {
        (window_secs * 1_000) as u64
    } else {
        u64::MAX
    }
}

/// Whether `after` is `before` held to the largest number of inputs: entries are
/// forgotten only where there are too many, only as many as there are too many,
/// and never one that was seen later than one that stays.
pub open spec fn pruned(before: Remembered, after: Remembered) -> bool {
    &&& forall|key: Seq<char>| #[trigger]
        after.contains_key(key) ==> before.contains_key(key) && after[key] == before[key]
    &&& after.dom().finite()
    &&& before.dom().len() <= MAX_REPEAT_FINGERPRINT_ENTRIES ==> after == before
    &&& before.dom().len() > MAX_REPEAT_FINGERPRINT_ENTRIES ==> after.dom().len()
        == MAX_REPEAT_FINGERPRINT_ENTRIES
    &&& forall|gone: Seq<char>, kept: Seq<char>|
        before.contains_key(gone) && !after.contains_key(gone) && after.contains_key(kept)
            ==> #[trigger] before[gone].last_seen_unix_ms
            <= #[trigger] before[kept].last_seen_unix_ms
}

/// How often an input came within the window before now.
pub open spec fn prior_count(
    remembered: Remembered,
    fingerprint: Seq<char>,
    now_unix_ms: u64,
    window_ms: u64,
) -> u32 {
    if remembered.contains_key(fingerprint) && is_recent(
        remembered[fingerprint],
        now_unix_ms,
        window_ms,
    ) {
        remembered[fingerprint].count
    } else {
        0
    }
}

/// One more, up to the largest number.
pub open spec fn one_more(count: u32) -> u32 {
    if count == u32::MAX {
        count
    } else {
        (count + 1) as u32
    }
}

/// Whether `observation` is what is said of an input that comes, and `after` what
/// is remembered from then on: old entries are forgotten, the input is counted,
/// and the whole is held to the largest number of inputs.
pub open spec fn observed(
    before: Remembered,
    fingerprint: Seq<char>,
    now_unix_ms: u64,
    window_secs: u64,
    max_repeated_inputs: u32,
    observation: RepeatInputObservation,
    after: Remembered,
) -> bool {
    let window_ms = window_millis(window_secs);
    let prior = prior_count(before, fingerprint, now_unix_ms, window_ms);
    &&& observation == (RepeatInputObservation {
        repeated: prior >= max_repeated_inputs,
        prior_count: prior,
    })
    &&& pruned(
        recent_only(before, now_unix_ms, window_ms).insert(
            fingerprint,
            RepeatInputEntry { count: one_more(prior), last_seen_unix_ms: now_unix_ms },
        ),
        after,
    )
}

impl RepeatInputCache {
    /// Each fingerprint is listed once, and there are not too many.
    pub closed spec fn wf(&self) -> bool {
        distinct(self.entries@) && self.entries.len() <= MAX_REPEAT_FINGERPRINT_ENTRIES
    }

    /// A cache that remembers nothing.
    pub fn new() -> (cache: RepeatInputCache)
        ensures
            cache.wf(),
            cache@ == Remembered::empty(),
    {
        RepeatInputCache { entries: Vec::new() }
    }

    /// Notes that an input has come, and says whether it came too often within
    /// the window.
    pub fn observe(
        &mut self,
        fingerprint: &str,
        now_unix_ms: u64,
        window_secs: u64,
        max_repeated_inputs: u32,
    ) -> (observation: RepeatInputObservation)
        requires
            old(self).wf(),
        ensures
            final(self).wf(),
            observed(
                old(self)@,
                fingerprint@,
                now_unix_ms,
                window_secs,
                max_repeated_inputs,
                observation,
                final(self)@,
            ),
    {
        let window_ms: u64 = match window_secs.checked_mul(1_000) {
            Some(millis) => millis,
            None => 0xffff_ffff_ffff_ffff,
        };
        let ghost all = self@;
        retain_recent(&mut self.entries, now_unix_ms, window_ms);
        let ghost recent = self@;
        let mut prior: u32 = 0;
        let mut i: usize = 0;
        let ghost listed = self.entries@;
        while i < self.entries.len() && !same_text(self.entries[i].0.as_str(), fingerprint)
            invariant
                i <= self.entries.len(),
                self.entries@ == listed,
                forall|j: int| 0 <= j < i ==> (#[trigger] listed[j]).0@ != fingerprint@,
            decreases self.entries.len() - i,
        {
            i += 1;
        }
        if i < self.entries.len() {
            proof {
                lemma_listed(listed, i as int);
                lemma_removed(listed, i as int);
            }
            prior = self.entries[i].1.count;
            self.entries.remove(i);
        } else {
            proof {
                lemma_not_remembered(listed, fingerprint@);
                assert(recent.remove(fingerprint@) =~= recent);
            }
        }
        let entry = RepeatInputEntry {
            count: prior.saturating_add(1),
            last_seen_unix_ms: now_unix_ms,
        };
        let ghost others = self.entries@;
        proof {
            assert(remembered_by(others) == recent.remove(fingerprint@));
            assert(!remembered_by(others).contains_key(fingerprint@));
        }
        self.entries.push((fingerprint.to_owned(), entry));
        proof {
            let grown = self.entries@;
            assert(grown.drop_last() =~= others);
            assert forall|a: int, b: int| 0 <= a < b < grown.len() implies (
            #[trigger] grown[a]).0@ != (#[trigger] grown[b]).0@ by {
                assert(grown[a] == others[a]);
                if b < others.len() {
                    assert(grown[b] == others[b]);
                } else {
                    lemma_listed(others, a);
                }
            }
            assert(remembered_by(grown) =~= recent.insert(fingerprint@, entry));
            assert(recent == recent_only(all, now_unix_ms, window_ms));
        }
        prune_repeat_input_entries(&mut self.entries);
        RepeatInputObservation { repeated: prior >= max_repeated_inputs, prior_count: prior }
    }
}

/// What a cache remembers of an input.
pub fn repeat_input_entries(cache: &RepeatInputCache, fingerprint: &str) -> (entry: Option<
    RepeatInputEntry,
>)
    requires
        cache.wf(),
    ensures
        match entry {
            Some(entry) => cache@.contains_key(fingerprint@) && cache@[fingerprint@] == entry,
            None => !cache@.contains_key(fingerprint@),
        },
{
    let mut i: usize = 0;
    while i < cache.entries.len()
        invariant
            i <= cache.entries.len(),
            cache.wf(),
            forall|j: int| 0 <= j < i ==> (#[trigger] cache.entries@[j]).0@ != fingerprint@,
        decreases cache.entries.len() - i,
    {
        if same_text(cache.entries[i].0.as_str(), fingerprint) {
            proof {
                lemma_listed(cache.entries@, i as int);
            }
            return Some(cache.entries[i].1);
        }
        i += 1;
    }
    proof {
        lemma_not_remembered(cache.entries@, fingerprint@);
    }
    None
}

fn retain_recent(entries: &mut Vec<(String, RepeatInputEntry)>, now_unix_ms: u64, window_ms: u64)
    requires
        distinct(old(entries)@),
    ensures
        distinct(final(entries)@),
        final(entries).len() <= old(entries).len(),
        remembered_by(final(entries)@) == recent_only(
            remembered_by(old(entries)@),
            now_unix_ms,
            window_ms,
        ),
{
    let ghost all = remembered_by(entries@);
    let ghost start = entries.len();
    let mut i: usize = 0;
    while i < entries.len()
        invariant
            i <= entries.len() <= start,
            distinct(entries@),
            forall|j: int|
                0 <= j < i ==> is_recent((#[trigger] entries@[j]).1, now_unix_ms, window_ms),
            recent_only(remembered_by(entries@), now_unix_ms, window_ms) == recent_only(
                all,
                now_unix_ms,
                window_ms,
            ),
        decreases entries.len() - i,
    {
        let ghost before = entries@;
        if now_unix_ms.saturating_sub(entries[i].1.last_seen_unix_ms) <= window_ms {
            i += 1;
        } else {
            proof {
                lemma_listed(before, i as int);
                lemma_removed(before, i as int);
            }
            entries.remove(i);
            assert(recent_only(remembered_by(entries@), now_unix_ms, window_ms) =~= recent_only(
                remembered_by(before),
                now_unix_ms,
                window_ms,
            ));
        }
    }
    proof {
        let kept = remembered_by(entries@);
        assert forall|key: Seq<char>| #[trigger] kept.contains_key(key) implies is_recent(
            kept[key],
            now_unix_ms,
            window_ms,
        ) by {
            let at = lemma_found(entries@, key);
            lemma_listed(entries@, at);
        }
        assert(kept =~= recent_only(kept, now_unix_ms, window_ms));
    }
}

/// Forgets the entries seen longest ago, where there are too many.
pub fn prune_repeat_input_entries(entries: &mut Vec<(String, RepeatInputEntry)>)
    requires
        distinct(old(entries)@),
    ensures
        distinct(final(entries)@),
        final(entries).len() <= MAX_REPEAT_FINGERPRINT_ENTRIES,
        pruned(remembered_by(old(entries)@), remembered_by(final(entries)@)),
{
    let ghost before = remembered_by(entries@);
    let ghost start = entries.len();
    proof {
        lemma_count(entries@);
    }
    while entries.len() > MAX_REPEAT_FINGERPRINT_ENTRIES
        invariant
            distinct(entries@),
            entries.len() <= start,
            start <= MAX_REPEAT_FINGERPRINT_ENTRIES ==> remembered_by(entries@) == before,
            start > MAX_REPEAT_FINGERPRINT_ENTRIES ==> entries.len()
                >= MAX_REPEAT_FINGERPRINT_ENTRIES,
            forall|key: Seq<char>| #[trigger]
                remembered_by(entries@).contains_key(key) ==> before.contains_key(key)
                    && remembered_by(entries@)[key] == before[key],
            forall|gone: Seq<char>, kept: Seq<char>|
                before.contains_key(gone) && !remembered_by(entries@).contains_key(gone)
                    && remembered_by(entries@).contains_key(kept)
                    ==> #[trigger] before[gone].last_seen_unix_ms
                    <= #[trigger] before[kept].last_seen_unix_ms,
        decreases entries.len(),
    {
        let ghost listed = entries@;
        let ghost now = remembered_by(listed);
        let mut oldest: usize = 0;
        let mut i: usize = 1;
        while i < entries.len()
            invariant
                1 <= i <= entries.len(),
                oldest < i,
                entries@ == listed,
                forall|j: int|
                    0 <= j < i ==> listed[oldest as int].1.last_seen_unix_ms <= (
                    #[trigger] listed[j]).1.last_seen_unix_ms,
            decreases entries.len() - i,
        {
            if entries[i].1.last_seen_unix_ms < entries[oldest].1.last_seen_unix_ms {
                oldest = i;
            }
            i += 1;
        }
        proof {
            lemma_listed(listed, oldest as int);
            lemma_removed(listed, oldest as int);
            assert forall|kept: Seq<char>| #[trigger] now.contains_key(kept) implies listed[oldest as int].1.last_seen_unix_ms
                <= now[kept].last_seen_unix_ms by {
                let at = lemma_found(listed, kept);
                lemma_listed(listed, at);
            }
        }
        entries.remove(oldest);
        proof {
            let after = remembered_by(entries@);
            assert forall|gone: Seq<char>, kept: Seq<char>|
                before.contains_key(gone) && !after.contains_key(gone) && after.contains_key(
                    kept,
                ) implies #[trigger] before[gone].last_seen_unix_ms
                <= #[trigger] before[kept].last_seen_unix_ms by {
                assert(now.contains_key(kept));
                if gone == listed[oldest as int].0@ {
                    assert(now.contains_key(gone));
                } else {
                    assert(!now.contains_key(gone));
                }
            }
        }
    }
    proof {
        lemma_count(entries@);
    }
}

/// The same input counts once more each time it comes within the window, and counts
/// from the start when it comes later. It is repeated once it came as often as allowed.
pub proof fn repeated_inputs_are_counted(
    before: Remembered,
    fingerprint: Seq<char>,
    first_ms: u64,
    second_ms: u64,
    window_secs: u64,
    max_repeated_inputs: u32,
    first: RepeatInputObservation,
    between: Remembered,
    second: RepeatInputObservation,
    after: Remembered,
)
    requires
        before.dom().finite(),
        before.dom().len() < MAX_REPEAT_FINGERPRINT_ENTRIES,
        first_ms <= second_ms,
        window_secs * 1_000 <= u64::MAX,
        observed(
            before,
            fingerprint,
            first_ms,
            window_secs,
            max_repeated_inputs,
            first,
            between,
        ),
        observed(
            between,
            fingerprint,
            second_ms,
            window_secs,
            max_repeated_inputs,
            second,
            after,
        ),
    ensures
        second_ms - first_ms <= window_secs * 1_000 && first.prior_count < u32::MAX
            ==> second.prior_count == first.prior_count + 1,
        second_ms - first_ms > window_secs * 1_000 ==> second.prior_count == 0,
        !before.contains_key(fingerprint) ==> first.prior_count == 0,
        first.repeated <==> first.prior_count >= max_repeated_inputs,
        second.repeated <==> second.prior_count >= max_repeated_inputs,
{
    let window_ms = window_millis(window_secs);
    let recent = recent_only(before, first_ms, window_ms);
    assert(recent.dom().subset_of(before.dom()));
    vstd::set_lib::lemma_len_subset(recent.dom(), before.dom());
    let told = recent.insert(
        fingerprint,
        RepeatInputEntry {
            count: one_more(first.prior_count),
            last_seen_unix_ms: first_ms,
        },
    );
    assert(told.dom() =~= recent.dom().insert(fingerprint));
    assert(told.dom().len() <= MAX_REPEAT_FINGERPRINT_ENTRIES);
    assert(between == told);
}

/// The inputs of others do not count.
pub proof fn other_inputs_do_not_count(
    before: Remembered,
    fingerprint: Seq<char>,
    other: Seq<char>,
    entry: RepeatInputEntry,
    now_ms: u64,
    window_ms: u64,
)
    requires
        other != fingerprint,
    ensures
        prior_count(before.insert(other, entry), fingerprint, now_ms, window_ms) == prior_count(
            before,
            fingerprint,
            now_ms,
            window_ms,
        ),
{
}

/// What is forgotten for want of room is never newer than what is kept, and nothing is
/// forgotten while there is room.
pub proof fn the_newest_inputs_are_kept(
    before: Remembered,
    after: Remembered,
    gone: Seq<char>,
    kept: Seq<char>,
)
    requires
        pruned(before, after),
    ensures
        before.dom().len() <= MAX_REPEAT_FINGERPRINT_ENTRIES ==> after == before,
        before.contains_key(gone) && !after.contains_key(gone) && after.contains_key(kept)
            ==> before[gone].last_seen_unix_ms <= after[kept].last_seen_unix_ms,
        after.contains_key(kept) ==> before.contains_key(kept) && after[kept] == before[kept],
        before.dom().len() > MAX_REPEAT_FINGERPRINT_ENTRIES ==> after.dom().len()
            == MAX_REPEAT_FINGERPRINT_ENTRIES,
{
}

/// Only what was seen within the window is remembered, and that as it is; a window is
/// counted in seconds.
pub proof fn recent_inputs_are_remembered(
    remembered: Remembered,
    now: u64,
    window_ms: u64,
    key: Seq<char>,
    secs: u64,
    count: u32,
)
    ensures
        recent_only(remembered, now, window_ms).contains_key(key) ==> remembered.contains_key(key)
            && recent_only(remembered, now, window_ms)[key] == remembered[key],
        remembered.contains_key(key) && remembered[key].last_seen_unix_ms <= now ==> (recent_only(
            remembered,
            now,
            window_ms,
        ).contains_key(key) <==> now - remembered[key].last_seen_unix_ms <= window_ms),
        remembered.contains_key(key) && remembered[key].last_seen_unix_ms > now ==> recent_only(
            remembered,
            now,
            window_ms,
        ).contains_key(key),
        secs * 1_000 <= u64::MAX ==> window_millis(secs) == secs * 1_000,
        count < u32::MAX ==> one_more(count) == count + 1,
{
}

} // verus!
