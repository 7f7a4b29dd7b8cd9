//! Detecting upstreams that have requests and make no progress, and waiting for
//! their restart.

use crate::assoc::{
    assoc, bound_keys_are_listed, distinct_keys, listed_entries_are_bound, removed_entry,
    updated_entry,
};
use crate::clock::{held_sum, min_u64, since, smaller};
use crate::errors::{bare_error, with_metadata, ErrorKind, ProxyError};
use crate::failures::next_count;
use crate::metadata::{bound_to, Bindings, Metadata};
use crate::recovery::{
    local_recovery_completed_ready, recovery_completed, RecoveryModel, UpstreamStallRecoveryState,
};
use crate::sse_progress::{chunk_progress, SseProgress};
use crate::text::{chars_list, contains, decimal, has_part};
use crate::text_map::TextMap;
use crate::token_usage::{parse_token_usage, response_usage};
use vstd::prelude::*;

verus! {

/// Most samples of progress that are kept for one profile. How fast chunks come
/// is the peer's choice, so this does not depend on the activity of requests.
pub const STUCK_WATCHDOG_TOKEN_SAMPLE_CAP: usize = 4_096;

/// What counts as progress.
#[derive(Clone, Copy, Debug, PartialEq, Eq, Structural)]
pub enum WatchdogProgressUnit {
    Chat,
    Embedding,
    Reranker,
}

/// What counts as progress of requests to a path.
pub open spec fn progress_unit(path: Seq<char>) -> WatchdogProgressUnit {
    if has_part(path, "embeddings"@) {
        WatchdogProgressUnit::Embedding
    } else if has_part(path, "rerank"@) || has_part(path, "score"@) {
        WatchdogProgressUnit::Reranker
    } else {
        WatchdogProgressUnit::Chat
    }
}

/// What counts as progress of requests to a path.
pub fn watchdog_progress_unit(path: &str) -> (unit: WatchdogProgressUnit)
    ensures
        unit == progress_unit(path@),
{
    if contains(path, "embeddings") {
        WatchdogProgressUnit::Embedding
    } else if contains(path, "rerank") || contains(path, "score") {
        WatchdogProgressUnit::Reranker
    } else {
        WatchdogProgressUnit::Chat
    }
}

/// The progress that one chunk shows. Chat streams are looked into; of other
/// endpoints any chunk that is not empty counts.
pub fn emitted_chunk_progress(
    unit: WatchdogProgressUnit,
    stream: &mut SseProgress,
    chunk: &[u8],
) -> (progress: u64)
    ensures
        unit is Chat ==> (progress as nat, final(stream).pending@) == chunk_progress(
            old(stream).pending@,
            chunk@,
        ),
        !(unit is Chat) ==> *final(stream) == *old(stream) && progress == if chunk@.len() > 0 {
            1u64
        } else {
            0u64
        },
{
    match unit {
        WatchdogProgressUnit::Chat => stream.record_sse_content_progress(chunk),
        _ => {
            if chunk.len() > 0 {
                1
            } else {
                0
            }
        },
    }
}

// ---------------------------------------------------------------------------
// The window of one profile
// ---------------------------------------------------------------------------

/// The times of one attempt, in milliseconds.
#[derive(Clone, Copy, Debug, PartialEq, Eq, Structural)]
pub struct WatchdogAttempt {
    pub started_at: u64,
    pub response_started: Option<u64>,
    pub completed: Option<u64>,
}

/// What is known of the requests of one profile: samples of progress with their
/// times, oldest first, and the attempts.
pub struct WatchdogWindow {
    samples: Vec<(u64, u64)>,
    attempts: Vec<(u64, WatchdogAttempt)>,
}

/// The meaning of what is known of the requests of one profile.
#[verifier::ext_equal]
pub struct WindowModel {
    pub samples: Seq<(u64, u64)>,
    pub attempts: Map<u64, WatchdogAttempt>,
}

impl View for WatchdogWindow {
    type V = WindowModel;

    closed spec fn view(&self) -> WindowModel {
        WindowModel { samples: self.samples@, attempts: assoc(self.attempts@) }
    }
}

/// The newest samples, as many as are kept.
pub open spec fn newest(samples: Seq<(u64, u64)>) -> Seq<(u64, u64)> {
    if samples.len() <= STUCK_WATCHDOG_TOKEN_SAMPLE_CAP {
        samples
    } else {
        samples.skip(samples.len() - STUCK_WATCHDOG_TOKEN_SAMPLE_CAP)
    }
}

/// Samples without the oldest ones that came before `threshold`.
pub open spec fn without_stale(samples: Seq<(u64, u64)>, threshold: u64) -> Seq<(u64, u64)>
    decreases samples.len(),
{
    if samples.len() > 0 && samples[0].0 < threshold {
        without_stale(samples.drop_first(), threshold)
    } else {
        samples
    }
}

/// The samples that are kept at `now`.
pub open spec fn fresh_samples(
    samples: Seq<(u64, u64)>,
    detection_window_ms: u64,
    now_ms: u64,
) -> Seq<(u64, u64)> {
    if now_ms >= detection_window_ms {
        without_stale(samples, (now_ms - detection_window_ms) as u64)
    } else {
        samples
    }
}

/// Whether an attempt is kept at `now`: it has not ended, or not long ago.
pub open spec fn is_kept(attempt: WatchdogAttempt, detection_window_ms: u64, now_ms: u64) -> bool {
    match attempt.completed {
        Some(completed) => now_ms < detection_window_ms || completed >= now_ms
            - detection_window_ms,
        None => true,
    }
}

/// The attempts that are kept at `now`.
pub open spec fn kept_attempts(
    attempts: Map<u64, WatchdogAttempt>,
    detection_window_ms: u64,
    now_ms: u64,
) -> Map<u64, WatchdogAttempt> {
    Map::new(
        |id: u64| attempts.contains_key(id) && is_kept(attempts[id], detection_window_ms, now_ms),
        |id: u64| attempts[id],
    )
}

/// Whether an attempt is under way.
pub open spec fn is_active(attempts: Map<u64, WatchdogAttempt>, id: u64) -> bool {
    attempts.contains_key(id) && attempts[id].completed is None
}

/// Whether some attempt is under way.
pub open spec fn any_active(attempts: Map<u64, WatchdogAttempt>) -> bool {
    exists|id: u64| is_active(attempts, id)
}

/// Whether an attempt under way shows that the upstream is alive or may yet
/// become so: its response has begun, or it is young.
pub open spec fn excuses(
    attempts: Map<u64, WatchdogAttempt>,
    id: u64,
    detection_window_ms: u64,
    now_ms: u64,
) -> bool {
    is_active(attempts, id) && (attempts[id].response_started is Some || since(
        now_ms,
        attempts[id].started_at,
    ) < detection_window_ms)
}

/// The progress of all samples together.
pub open spec fn total_progress(samples: Seq<(u64, u64)>) -> u64
    decreases samples.len(),
{
    if samples.len() == 0 {
        0
    } else {
        held_sum(total_progress(samples.drop_last()), samples.last().1)
    }
}

/// Whether a profile makes too little progress, and what is known of it after
/// looking. An attempt that excuses the upstream is enough to say no.
pub open spec fn too_little(
    window: WindowModel,
    detection_window_ms: u64,
    minimum: u64,
    now_ms: u64,
) -> (bool, WindowModel) {
    let attempts = kept_attempts(window.attempts, detection_window_ms, now_ms);
    if exists|id: u64| excuses(attempts, id, detection_window_ms, now_ms) {
        (false, WindowModel { attempts, ..window })
    } else {
        let samples = fresh_samples(window.samples, detection_window_ms, now_ms);
        (total_progress(samples) < minimum, WindowModel { samples, attempts })
    }
}

impl WatchdogWindow {
    /// No attempt is listed twice, and not too many samples are kept.
    pub closed spec fn wf(&self) -> bool {
        distinct_keys(self.attempts@) && self.samples.len() <= STUCK_WATCHDOG_TOKEN_SAMPLE_CAP
    }

    /// Nothing known.
    pub fn new() -> (window: WatchdogWindow)
        ensures
            window.wf(),
            window@.samples == Seq::<(u64, u64)>::empty(),
            window@.attempts == Map::<u64, WatchdogAttempt>::empty(),
    {
        WatchdogWindow { samples: Vec::new(), attempts: Vec::new() }
    }

    fn find(&self, id: u64) -> (place: Option<usize>)
        ensures
            match place {
                Some(i) => i < self.attempts.len() && self.attempts@[i as int].0 == id,
                None => forall|j: int|
                    0 <= j < self.attempts.len() ==> (#[trigger] self.attempts@[j]).0 != id,
            },
    {
        let mut i: usize = 0;
        while i < self.attempts.len()
            invariant
                i <= self.attempts.len(),
                forall|j: int| 0 <= j < i ==> (#[trigger] self.attempts@[j]).0 != id,
            decreases self.attempts.len() - i,
        {
            if self.attempts[i].0 == id {
                return Some(i);
            }
            i += 1;
        }
        None
    }

    /// An attempt begins.
    pub fn begin_request(&mut self, id: u64, now_ms: u64)
        requires
            old(self).wf(),
        ensures
            final(self).wf(),
            final(self)@ == (WindowModel {
                attempts: old(self)@.attempts.insert(
                    id,
                    WatchdogAttempt { started_at: now_ms, response_started: None, completed: None },
                ),
                ..old(self)@
            }),
    {
        let attempt = WatchdogAttempt {
            started_at: now_ms,
            response_started: None,
            completed: None,
        };
        match self.find(id) {
            Some(i) => {
                proof {
                    updated_entry(self.attempts@, i as int, attempt);
                }
                self.attempts.set(i, (id, attempt));
            },
            None => {
                let ghost before = self.attempts@;
                self.attempts.push((id, attempt));
                proof {
                    let after = self.attempts@;
                    assert(after.drop_last() =~= before);
                    assert forall|a: int, b: int| 0 <= a < b < after.len() implies (
                    #[trigger] after[a]).0 != (#[trigger] after[b]).0 by {
                        assert(after[a] == before[a]);
                        if b < before.len() {
                            assert(after[b] == before[b]);
                        }
                    }
                }
            },
        }
    }

    fn change(&mut self, id: u64, attempt: WatchdogAttempt)
        requires
            old(self).wf(),
            old(self)@.attempts.contains_key(id),
        ensures
            final(self).wf(),
            final(self)@ == (WindowModel {
                attempts: old(self)@.attempts.insert(id, attempt),
                ..old(self)@
            }),
    {
        match self.find(id) {
            Some(i) => {
                proof {
                    updated_entry(self.attempts@, i as int, attempt);
                }
                self.attempts.set(i, (id, attempt));
            },
            None => {
                proof {
                    let at = bound_keys_are_listed(self.attempts@, id);
                    assert(self.attempts@[at].0 == id);
                }
            },
        }
    }

    fn attempt(&self, id: u64) -> (attempt: Option<WatchdogAttempt>)
        requires
            self.wf(),
        ensures
            match attempt {
                Some(attempt) => self@.attempts.contains_key(id) && self@.attempts[id] == attempt,
                None => !self@.attempts.contains_key(id),
            },
    {
        match self.find(id) {
            Some(i) => {
                proof {
                    listed_entries_are_bound(self.attempts@, i as int);
                }
                Some(self.attempts[i].1)
            },
            None => {
                proof {
                    if assoc(self.attempts@).contains_key(id) {
                        let at = bound_keys_are_listed(self.attempts@, id);
                        assert(self.attempts@[at].0 == id);
                    }
                }
                None
            },
        }
    }

    /// The response of an attempt has begun. Only the first time counts.
    pub fn record_upstream_response_started(&mut self, id: u64, now_ms: u64)
        requires
            old(self).wf(),
        ensures
            final(self).wf(),
            final(self)@ == if old(self)@.attempts.contains_key(id)
                && old(self)@.attempts[id].response_started is None {
                WindowModel {
                    attempts: old(self)@.attempts.insert(
                        id,
                        WatchdogAttempt {
                            response_started: Some(now_ms),
                            ..old(self)@.attempts[id]
                        },
                    ),
                    ..old(self)@
                }
            } else {
                old(self)@
            },
    {
        match self.attempt(id) {
            Some(attempt) => {
                if attempt.response_started.is_none() {
                    self.change(
                        id,
                        WatchdogAttempt {
                            started_at: attempt.started_at,
                            response_started: Some(now_ms),
                            completed: attempt.completed,
                        },
                    );
                }
            },
            None => {},
        }
    }

    /// An attempt has ended.
    pub fn complete_request(&mut self, id: u64, now_ms: u64)
        requires
            old(self).wf(),
        ensures
            final(self).wf(),
            final(self)@ == if old(self)@.attempts.contains_key(id) {
                WindowModel {
                    attempts: old(self)@.attempts.insert(
                        id,
                        WatchdogAttempt { completed: Some(now_ms), ..old(self)@.attempts[id] },
                    ),
                    ..old(self)@
                }
            } else {
                old(self)@
            },
    {
        match self.attempt(id) {
            Some(attempt) => {
                self.change(
                    id,
                    WatchdogAttempt {
                        started_at: attempt.started_at,
                        response_started: attempt.response_started,
                        completed: Some(now_ms),
                    },
                );
            },
            None => {},
        }
    }

    /// Adds a sample of progress; the oldest go where there are too many.
    pub fn record_watchdog_progress(&mut self, now_ms: u64, progress: u64)
        requires
            old(self).wf(),
        ensures
            final(self).wf(),
            final(self)@ == (WindowModel {
                samples: newest(old(self)@.samples.push((now_ms, progress))),
                ..old(self)@
            }),
    {
        let ghost before = self.samples@;
        if self.samples.len() >= STUCK_WATCHDOG_TOKEN_SAMPLE_CAP {
            self.samples.remove(0);
        }
        self.samples.push((now_ms, progress));
        assert(self.samples@ =~= newest(before.push((now_ms, progress))));
    }

    /// Forgets samples that are too old.
    pub fn prune_watchdog_progress(&mut self, detection_window_ms: u64, now_ms: u64)
        requires
            old(self).wf(),
        ensures
            final(self).wf(),
            final(self)@ == (WindowModel {
                samples: fresh_samples(old(self)@.samples, detection_window_ms, now_ms),
                ..old(self)@
            }),
    {
        let threshold: u64 = match now_ms.checked_sub(detection_window_ms) {
            Some(threshold) => threshold,
            None => {
                return;
            },
        };
        let ghost all = self.samples@;
        let ghost attempts = self.attempts@;
        while self.samples.len() > 0 && self.samples[0].0 < threshold
            invariant
                self.attempts@ == attempts,
                distinct_keys(attempts),
                self.samples.len() <= STUCK_WATCHDOG_TOKEN_SAMPLE_CAP,
                without_stale(all, threshold) == without_stale(self.samples@, threshold),
            decreases self.samples.len(),
        {
            let ghost before = self.samples@;
            self.samples.remove(0);
            assert(self.samples@ =~= before.drop_first());
        }
    }

    /// Forgets attempts that ended too long ago.
    pub fn prune_watchdog_attempts(&mut self, detection_window_ms: u64, now_ms: u64)
        requires
            old(self).wf(),
        ensures
            final(self).wf(),
            final(self)@ == (WindowModel {
                attempts: kept_attempts(old(self)@.attempts, detection_window_ms, now_ms),
                ..old(self)@
            }),
    {
        let ghost all = assoc(self.attempts@);
        let ghost samples = self.samples@;
        let threshold: u64 = match now_ms.checked_sub(detection_window_ms) {
            Some(threshold) => threshold,
            None => {
                assert(kept_attempts(all, detection_window_ms, now_ms) =~= all);
                return;
            },
        };
        let mut i: usize = 0;
        while i < self.attempts.len()
            invariant
                i <= self.attempts.len(),
                self.samples@ == samples,
                samples.len() <= STUCK_WATCHDOG_TOKEN_SAMPLE_CAP,
                now_ms >= detection_window_ms,
                threshold == now_ms - detection_window_ms,
                distinct_keys(self.attempts@),
                forall|j: int|
                    0 <= j < i ==> is_kept(
                        (#[trigger] self.attempts@[j]).1,
                        detection_window_ms,
                        now_ms,
                    ),
                kept_attempts(assoc(self.attempts@), detection_window_ms, now_ms) == kept_attempts(
                    all,
                    detection_window_ms,
                    now_ms,
                ),
            decreases self.attempts.len() - i,
        {
            let ghost before = self.attempts@;
            let stale = match self.attempts[i].1.completed {
                Some(completed) => completed < threshold,
                None => false,
            };
            if stale {
                proof {
                    listed_entries_are_bound(before, i as int);
                    removed_entry(before, i as int);
                }
                self.attempts.remove(i);
                assert(kept_attempts(assoc(self.attempts@), detection_window_ms, now_ms)
                    =~= kept_attempts(assoc(before), detection_window_ms, now_ms));
            } else {
                i += 1;
            }
        }
        proof {
            let left = assoc(self.attempts@);
            assert forall|id: u64| #[trigger] left.contains_key(id) implies is_kept(
                left[id],
                detection_window_ms,
                now_ms,
            ) by {
                let at = bound_keys_are_listed(self.attempts@, id);
                listed_entries_are_bound(self.attempts@, at);
            }
            assert(left =~= kept_attempts(left, detection_window_ms, now_ms));
        }
    }

    /// Forgets what is too old.
    pub fn prune(&mut self, detection_window_ms: u64, now_ms: u64)
        requires
            old(self).wf(),
        ensures
            final(self).wf(),
            final(self)@ == (WindowModel {
                samples: fresh_samples(old(self)@.samples, detection_window_ms, now_ms),
                attempts: kept_attempts(old(self)@.attempts, detection_window_ms, now_ms),
            }),
    {
        self.prune_watchdog_progress(detection_window_ms, now_ms);
        self.prune_watchdog_attempts(detection_window_ms, now_ms);
    }

    /// Notes progress, if there is any.
    pub fn record_progress(&mut self, detection_window_ms: u64, progress: u64, now_ms: u64)
        requires
            old(self).wf(),
        ensures
            final(self).wf(),
            final(self)@ == if progress == 0 {
                old(self)@
            } else {
                WindowModel {
                    samples: newest(
                        fresh_samples(old(self)@.samples, detection_window_ms, now_ms).push(
                            (now_ms, progress),
                        ),
                    ),
                    attempts: kept_attempts(old(self)@.attempts, detection_window_ms, now_ms),
                }
            },
    {
        if progress == 0 {
            return;
        }
        self.prune(detection_window_ms, now_ms);
        self.record_watchdog_progress(now_ms, progress);
    }

    /// Notes the output tokens that a response reports, if it does.
    pub fn record_response(
        &mut self,
        detection_window_ms: u64,
        response_body: &[u8],
        sse_body: &[u8],
        now_ms: u64,
    )
        requires
            old(self).wf(),
        ensures
            final(self).wf(),
            final(self)@ == match response_usage(response_body@, sse_body@).output_tokens {
                None => old(self)@,
                Some(tokens) => WindowModel {
                    samples: newest(
                        fresh_samples(old(self)@.samples, detection_window_ms, now_ms).push(
                            (now_ms, tokens),
                        ),
                    ),
                    attempts: kept_attempts(old(self)@.attempts, detection_window_ms, now_ms),
                },
            },
    {
        match parse_token_usage(response_body, sse_body).output_tokens {
            Some(tokens) => {
                self.prune(detection_window_ms, now_ms);
                self.record_watchdog_progress(now_ms, tokens);
            },
            None => {},
        }
    }

    /// Whether some attempt is under way.
    pub fn has_active_requests(&self) -> (active: bool)
        requires
            self.wf(),
        ensures
            active == any_active(self@.attempts),
    {
        let mut i: usize = 0;
        while i < self.attempts.len()
            invariant
                i <= self.attempts.len(),
                self.wf(),
                forall|j: int| 0 <= j < i ==> (#[trigger] self.attempts@[j]).1.completed is Some,
            decreases self.attempts.len() - i,
        {
            if self.attempts[i].1.completed.is_none() {
                proof {
                    listed_entries_are_bound(self.attempts@, i as int);
                    assert(is_active(self@.attempts, self.attempts@[i as int].0));
                }
                return true;
            }
            i += 1;
        }
        proof {
            if any_active(self@.attempts) {
                let id = choose|id: u64| is_active(self@.attempts, id);
                let at = bound_keys_are_listed(self.attempts@, id);
                listed_entries_are_bound(self.attempts@, at);
            }
        }
        false
    }

    fn has_excuse(&self, detection_window_ms: u64, now_ms: u64) -> (excused: bool)
        requires
            self.wf(),
        ensures
            excused == exists|id: u64|
                excuses(self@.attempts, id, detection_window_ms, now_ms),
    {
        let mut i: usize = 0;
        while i < self.attempts.len()
            invariant
                i <= self.attempts.len(),
                self.wf(),
                forall|j: int|
                    0 <= j < i ==> {
                        let attempt = (#[trigger] self.attempts@[j]).1;
                        !(attempt.completed is None && (attempt.response_started is Some || since(
                            now_ms,
                            attempt.started_at,
                        ) < detection_window_ms))
                    },
            decreases self.attempts.len() - i,
        {
            let attempt = self.attempts[i].1;
            if attempt.completed.is_none() && (attempt.response_started.is_some()
                || now_ms.saturating_sub(attempt.started_at) < detection_window_ms) {
                proof {
                    listed_entries_are_bound(self.attempts@, i as int);
                    assert(excuses(
                        self@.attempts,
                        self.attempts@[i as int].0,
                        detection_window_ms,
                        now_ms,
                    ));
                }
                return true;
            }
            i += 1;
        }
        proof {
            if exists|id: u64| excuses(self@.attempts, id, detection_window_ms, now_ms) {
                let id = choose|id: u64| excuses(self@.attempts, id, detection_window_ms, now_ms);
                let at = bound_keys_are_listed(self.attempts@, id);
                listed_entries_are_bound(self.attempts@, at);
            }
        }
        false
    }

    /// Whether the profile makes too little progress.
    pub fn window_has_too_few_output_tokens(
        &mut self,
        detection_window_ms: u64,
        minimum_output_tokens: u64,
        now_ms: u64,
    ) -> (too_few: bool)
        requires
            old(self).wf(),
        ensures
            final(self).wf(),
            (too_few, final(self)@) == too_little(
                old(self)@,
                detection_window_ms,
                minimum_output_tokens,
                now_ms,
            ),
    {
        self.prune_watchdog_attempts(detection_window_ms, now_ms);
        if self.has_excuse(detection_window_ms, now_ms) {
            return false;
        }
        self.prune_watchdog_progress(detection_window_ms, now_ms);
        let mut total: u64 = 0;
        let mut i: usize = 0;
        while i < self.samples.len()
            invariant
                i <= self.samples.len(),
                total == total_progress(self.samples@.take(i as int)),
            decreases self.samples.len() - i,
        {
            assert(self.samples@.take(i + 1).drop_last() =~= self.samples@.take(i as int));
            total = total.saturating_add(self.samples[i].1);
            i += 1;
        }
        assert(self.samples@.take(i as int) =~= self.samples@);
        total < minimum_output_tokens
    }

    /// Number of samples that are kept.
    pub fn sample_count(&self) -> (count: usize)
        requires
            self.wf(),
        ensures
            count == self@.samples.len(),
            count <= STUCK_WATCHDOG_TOKEN_SAMPLE_CAP,
    {
        self.samples.len()
    }
}

/// A profile whose response has begun, or whose only requests are young, is never
/// taken for stuck, however little progress it shows.
pub proof fn alive_upstreams_are_not_stuck(
    window: WindowModel,
    detection_window_ms: u64,
    minimum: u64,
    now_ms: u64,
    id: u64,
)
    requires
        excuses(window.attempts, id, detection_window_ms, now_ms),
    ensures
        !too_little(window, detection_window_ms, minimum, now_ms).0,
{
    let kept = kept_attempts(window.attempts, detection_window_ms, now_ms);
    assert(excuses(kept, id, detection_window_ms, now_ms));
}

/// Whether a profile is to be recovered: it is due, not being recovered, has
/// requests, makes too little progress, and can be recovered.
pub open spec fn is_stuck(
    window: WindowModel,
    due: bool,
    recovering: bool,
    recoverable: bool,
    detection_window_ms: u64,
    minimum: u64,
    now_ms: u64,
) -> bool {
    due && !recovering && any_active(window.attempts) && too_little(
        window,
        detection_window_ms,
        minimum,
        now_ms,
    ).0 && recoverable
}

/// Decides whether a profile is to be recovered.
pub fn profile_is_stuck(
    window: &mut WatchdogWindow,
    due: bool,
    recovering: bool,
    recoverable: bool,
    detection_window_ms: u64,
    minimum_output_tokens: u64,
    now_ms: u64,
) -> (stuck: bool)
    requires
        old(window).wf(),
    ensures
        final(window).wf(),
        stuck == is_stuck(
            old(window)@,
            due,
            recovering,
            recoverable,
            detection_window_ms,
            minimum_output_tokens,
            now_ms,
        ),
        final(window)@ == if due && !recovering && any_active(old(window)@.attempts) {
            too_little(old(window)@, detection_window_ms, minimum_output_tokens, now_ms).1
        } else {
            old(window)@
        },
{
    if !due || recovering || !window.has_active_requests() {
        return false;
    }
    if !window.window_has_too_few_output_tokens(
        detection_window_ms,
        minimum_output_tokens,
        now_ms,
    ) {
        return false;
    }
    recoverable
}

// ---------------------------------------------------------------------------
// Schedule
// ---------------------------------------------------------------------------

/// When a profile is next looked at, and the interval that this was set for.
#[derive(Clone, Copy, Debug, PartialEq, Eq, Structural)]
pub struct WatchdogScheduleEntry {
    pub next_due: u64,
    pub applied_interval: u64,
}

/// When the profiles are next looked at.
pub struct WatchdogSchedule {
    next_due: TextMap<WatchdogScheduleEntry>,
}

/// The meaning of a schedule.
pub type ScheduleModel = Map<Seq<char>, WatchdogScheduleEntry>;

impl View for WatchdogSchedule {
    type V = ScheduleModel;

    closed spec fn view(&self) -> ScheduleModel {
        self.next_due@
    }
}

/// Whether a profile is due: it is new, its time has come, or its interval has
/// changed.
pub open spec fn is_due(schedule: ScheduleModel, name: Seq<char>, interval_ms: u64, now_ms: u64) -> bool {
    !schedule.contains_key(name) || schedule[name].next_due <= now_ms
        || schedule[name].applied_interval != interval_ms
}

/// The schedule and the names of the profiles that are due, after the first
/// `count` profiles have been looked at.
pub open spec fn due_after(
    schedule: ScheduleModel,
    profiles: Seq<(String, u64)>,
    now_ms: u64,
    count: nat,
) -> (ScheduleModel, Seq<Seq<char>>)
    decreases count,
{
    if count == 0 {
        (schedule, Seq::empty())
    } else {
        let (before, due) = due_after(schedule, profiles, now_ms, (count - 1) as nat);
        let (name, interval) = (profiles[count - 1].0@, profiles[count - 1].1);
        if is_due(before, name, interval, now_ms) {
            (
                before.insert(
                    name,
                    WatchdogScheduleEntry {
                        next_due: held_sum(now_ms, interval),
                        applied_interval: interval,
                    },
                ),
                due.push(name),
            )
        } else {
            (before, due)
        }
    }
}

impl WatchdogSchedule {
    /// A schedule without profiles.
    pub fn new() -> (schedule: WatchdogSchedule)
        ensures
            schedule@ == ScheduleModel::empty(),
    {
        WatchdogSchedule { next_due: TextMap::new() }
    }

    /// The profiles that are due, each with its interval in milliseconds; each of
    /// them is next due one interval from now.
    pub fn due_profiles(&mut self, now_ms: u64, profiles: &Vec<(String, u64)>) -> (due: Vec<String>)
        ensures
            (final(self)@, chars_list(due@)) == due_after(
                old(self)@,
                profiles@,
                now_ms,
                profiles.len() as nat,
            ),
    {
        let mut due: Vec<String> = Vec::new();
        let mut i: usize = 0;
        assert(chars_list(due@) =~= Seq::<Seq<char>>::empty());
        while i < profiles.len()
            invariant
                i <= profiles.len(),
                (self@, chars_list(due@)) == due_after(old(self)@, profiles@, now_ms, i as nat),
            decreases profiles.len() - i,
        {
            let name = profiles[i].0.as_str();
            let interval: u64 = profiles[i].1;
            let is_due_now = match self.next_due.get(name) {
                Some(entry) => entry.next_due <= now_ms || entry.applied_interval != interval,
                None => true,
            };
            let ghost before = chars_list(due@);
            if is_due_now {
                self.next_due.insert(
                    name,
                    WatchdogScheduleEntry {
                        next_due: now_ms.saturating_add(interval),
                        applied_interval: interval,
                    },
                );
                due.push(name.to_owned());
                assert(chars_list(due@) =~= before.push(name@));
            }
            i += 1;
        }
        due
    }
}

/// A profile that was just looked at is not due again before its interval is
/// over, while the interval stays the same.
pub proof fn profiles_keep_their_cadence(
    schedule: ScheduleModel,
    name: Seq<char>,
    interval_ms: u64,
    looked_ms: u64,
    now_ms: u64,
)
    requires
        schedule.contains_key(name),
        schedule[name] == (WatchdogScheduleEntry {
            next_due: held_sum(looked_ms, interval_ms),
            applied_interval: interval_ms,
        }),
        looked_ms <= now_ms,
        now_ms - looked_ms < interval_ms,
        now_ms < u64::MAX,
    ensures
        !is_due(schedule, name, interval_ms, now_ms),
{
}

// ---------------------------------------------------------------------------
// Counters
// ---------------------------------------------------------------------------

/// What the watchdog has done for one profile.
#[derive(Clone, Copy, Debug, PartialEq, Eq, Structural)]
pub struct WatchdogMetricsSnapshot {
    pub detections: u64,
    pub restarts: u64,
    pub recovery_successes: u64,
    pub recovery_timeouts: u64,
    pub restart_queue_depth: u64,
}

/// Nothing done.
pub open spec fn no_watchdog_metrics() -> WatchdogMetricsSnapshot {
    WatchdogMetricsSnapshot {
        detections: 0,
        restarts: 0,
        recovery_successes: 0,
        recovery_timeouts: 0,
        restart_queue_depth: 0,
    }
}

/// Counts a detection and the restart that follows it.
pub fn count_detection(counters: &mut WatchdogMetricsSnapshot)
    ensures
        *final(counters) == (WatchdogMetricsSnapshot {
            detections: next_count(old(counters).detections),
            restarts: next_count(old(counters).restarts),
            ..*old(counters)
        }),
{
    counters.detections = counters.detections.wrapping_add(1);
    counters.restarts = counters.restarts.wrapping_add(1);
}

/// Whether a recovery took too long.
pub open spec fn recovery_timed_out(recovery: Bindings) -> bool {
    ||| bound_to(recovery, "local_recovery_status"@, "completion_timeout"@)
    ||| bound_to(recovery, "local_recovery_status"@, "episode_timeout"@)
    ||| bound_to(recovery, "local_recovery_status"@, "join_timeout"@)
    ||| bound_to(recovery, "local_recovery_status"@, "readiness_timeout"@)
}

/// The counters after a recovery has ended.
pub open spec fn with_recovery(
    counters: WatchdogMetricsSnapshot,
    recovery: Bindings,
) -> WatchdogMetricsSnapshot {
    if bound_to(recovery, "local_recovery_status"@, "succeeded"@) {
        WatchdogMetricsSnapshot {
            recovery_successes: next_count(counters.recovery_successes),
            ..counters
        }
    } else if recovery_timed_out(recovery) {
        WatchdogMetricsSnapshot {
            recovery_timeouts: next_count(counters.recovery_timeouts),
            ..counters
        }
    } else {
        counters
    }
}

/// The status of a recovery as it is logged.
pub open spec fn logged_status(recovery: Bindings) -> Seq<char> {
    if recovery.contains_key("local_recovery_status"@) {
        recovery["local_recovery_status"@]
    } else {
        "missing"@
    }
}

/// Counts what came of a recovery, and gives its status as it is logged.
pub fn record_watchdog_recovery_result(
    counters: &mut WatchdogMetricsSnapshot,
    recovery: &Metadata,
) -> (status: String)
    ensures
        status@ == logged_status(recovery@),
        *final(counters) == with_recovery(*old(counters), recovery@),
{
    if recovery.reads("local_recovery_status", "succeeded") {
        counters.recovery_successes = counters.recovery_successes.wrapping_add(1);
    } else if recovery.reads("local_recovery_status", "completion_timeout") || recovery.reads(
        "local_recovery_status",
        "episode_timeout",
    ) || recovery.reads("local_recovery_status", "join_timeout") || recovery.reads(
        "local_recovery_status",
        "readiness_timeout",
    ) {
        counters.recovery_timeouts = counters.recovery_timeouts.wrapping_add(1);
    }
    match recovery.get("local_recovery_status") {
        Some(status) => status.clone(),
        None => "missing".to_owned(),
    }
}

/// The sum of what the watchdog has done for all profiles.
pub open spec fn summed(counters: Seq<WatchdogMetricsSnapshot>) -> WatchdogMetricsSnapshot
    decreases counters.len(),
{
    if counters.len() == 0 {
        no_watchdog_metrics()
    } else {
        let sum = summed(counters.drop_last());
        let last = counters.last();
        WatchdogMetricsSnapshot {
            detections: held_sum(sum.detections, last.detections),
            restarts: held_sum(sum.restarts, last.restarts),
            recovery_successes: held_sum(sum.recovery_successes, last.recovery_successes),
            recovery_timeouts: held_sum(sum.recovery_timeouts, last.recovery_timeouts),
            restart_queue_depth: held_sum(sum.restart_queue_depth, last.restart_queue_depth),
        }
    }
}

/// Sums up what the watchdog has done for all profiles.
pub fn watchdog_metrics_snapshot(counters: &Vec<WatchdogMetricsSnapshot>) -> (sum:
    WatchdogMetricsSnapshot)
    ensures
        sum == summed(counters@),
{
    let mut sum = WatchdogMetricsSnapshot {
        detections: 0,
        restarts: 0,
        recovery_successes: 0,
        recovery_timeouts: 0,
        restart_queue_depth: 0,
    };
    let mut i: usize = 0;
    while i < counters.len()
        invariant
            i <= counters.len(),
            sum == summed(counters@.take(i as int)),
        decreases counters.len() - i,
    {
        assert(counters@.take(i + 1).drop_last() =~= counters@.take(i as int));
        let last = counters[i];
        sum = WatchdogMetricsSnapshot {
            detections: sum.detections.saturating_add(last.detections),
            restarts: sum.restarts.saturating_add(last.restarts),
            recovery_successes: sum.recovery_successes.saturating_add(last.recovery_successes),
            recovery_timeouts: sum.recovery_timeouts.saturating_add(last.recovery_timeouts),
            restart_queue_depth: sum.restart_queue_depth.saturating_add(last.restart_queue_depth),
        };
        i += 1;
    }
    assert(counters@.take(i as int) =~= counters@);
    sum
}

// ---------------------------------------------------------------------------
// A round
// ---------------------------------------------------------------------------

/// A profile that the watchdog looks at.
pub struct WatchedProfile {
    pub name: String,
    pub enabled: bool,
    pub check_interval_ms: u64,
    pub detection_window_ms: u64,
    pub min_output_tokens: u64,
    /// Whether the profile can be recovered.
    pub recoverable: bool,
    /// Whether the watchdog is recovering the profile.
    pub recovering: bool,
    pub window: WatchdogWindow,
    pub counters: WatchdogMetricsSnapshot,
}

/// The meaning of a profile that the watchdog looks at.
#[verifier::ext_equal]
pub struct WatchedModel {
    pub name: Seq<char>,
    pub enabled: bool,
    pub check_interval_ms: u64,
    pub detection_window_ms: u64,
    pub min_output_tokens: u64,
    pub recoverable: bool,
    pub recovering: bool,
    pub window: WindowModel,
    pub counters: WatchdogMetricsSnapshot,
}

impl View for WatchedProfile {
    type V = WatchedModel;

    open spec fn view(&self) -> WatchedModel {
        WatchedModel {
            name: self.name@,
            enabled: self.enabled,
            check_interval_ms: self.check_interval_ms,
            detection_window_ms: self.detection_window_ms,
            min_output_tokens: self.min_output_tokens,
            recoverable: self.recoverable,
            recovering: self.recovering,
            window: self.window@,
            counters: self.counters,
        }
    }
}

/// What is known of a profile before it is looked at: what is too old is forgotten,
/// whether or not it has requests.
pub open spec fn freshened(profile: WatchedModel, now_ms: u64) -> WindowModel {
    if profile.enabled {
        WindowModel {
            samples: fresh_samples(profile.window.samples, profile.detection_window_ms, now_ms),
            attempts: kept_attempts(profile.window.attempts, profile.detection_window_ms, now_ms),
        }
    } else {
        profile.window
    }
}

/// Whether a profile is found stuck.
pub open spec fn found_stuck(profile: WatchedModel, due: bool, now_ms: u64) -> bool {
    is_stuck(
        freshened(profile, now_ms),
        due,
        profile.recovering,
        profile.recoverable,
        profile.detection_window_ms,
        profile.min_output_tokens,
        now_ms,
    )
}

/// A profile after it was looked at. One that is stuck is recovered, and counted.
pub open spec fn looked_at(profile: WatchedModel, due: bool, now_ms: u64) -> WatchedModel {
    let window = freshened(profile, now_ms);
    let stuck = found_stuck(profile, due, now_ms);
    WatchedModel {
        window: if due && !profile.recovering && any_active(window.attempts) {
            too_little(
                window,
                profile.detection_window_ms,
                profile.min_output_tokens,
                now_ms,
            ).1
        } else {
            window
        },
        recovering: profile.recovering || stuck,
        counters: if stuck {
            WatchdogMetricsSnapshot {
                detections: next_count(profile.counters.detections),
                restarts: next_count(profile.counters.restarts),
                ..profile.counters
            }
        } else {
            profile.counters
        },
        ..profile
    }
}

/// Looks at one profile.
pub fn look_at_profile(profile: WatchedProfile, due: bool, now_ms: u64) -> (looked: (
    WatchedProfile,
    bool,
))
    requires
        profile.window.wf(),
    ensures
        looked.0.window.wf(),
        looked.0@ == looked_at(profile@, due, now_ms),
        looked.1 == found_stuck(profile@, due, now_ms),
{
    let mut profile = profile;
    if profile.enabled {
        profile.window.prune(profile.detection_window_ms, now_ms);
    }
    let stuck = profile_is_stuck(
        &mut profile.window,
        due,
        profile.recovering,
        profile.recoverable,
        profile.detection_window_ms,
        profile.min_output_tokens,
        now_ms,
    );
    if stuck {
        profile.recovering = true;
        count_detection(&mut profile.counters);
    }
    (profile, stuck)
}

/// The intervals of the profiles that are looked at.
pub open spec fn is_scheduled(scheduled: Seq<(String, u64)>, profiles: Seq<WatchedProfile>) -> bool
    decreases profiles.len(),
{
    if profiles.len() == 0 {
        scheduled.len() == 0
    } else if profiles.last().enabled {
        &&& scheduled.len() > 0
        &&& scheduled.last().0@ == profiles.last().name@
        &&& scheduled.last().1 == profiles.last().check_interval_ms
        &&& is_scheduled(scheduled.drop_last(), profiles.drop_last())
    } else {
        is_scheduled(scheduled, profiles.drop_last())
    }
}

/// Lists the profiles that are looked at, each with its interval.
pub fn scheduled_profiles(profiles: &Vec<WatchedProfile>) -> (scheduled: Vec<(String, u64)>)
    ensures
        is_scheduled(scheduled@, profiles@),
{
    let mut scheduled: Vec<(String, u64)> = Vec::new();
    let mut i: usize = 0;
    while i < profiles.len()
        invariant
            i <= profiles.len(),
            is_scheduled(scheduled@, profiles@.take(i as int)),
        decreases profiles.len() - i,
    {
        assert(profiles@.take(i + 1).drop_last() =~= profiles@.take(i as int));
        if profiles[i].enabled {
            let ghost before = scheduled@;
            scheduled.push((profiles[i].name.clone(), profiles[i].check_interval_ms));
            assert(scheduled@.drop_last() =~= before);
        }
        i += 1;
    }
    assert(profiles@.take(i as int) =~= profiles@);
    scheduled
}

/// The profiles after a round.
pub open spec fn looked_at_all(
    profiles: Seq<WatchedProfile>,
    due: Seq<Seq<char>>,
    now_ms: u64,
) -> Seq<WatchedModel> {
    Seq::new(
        profiles.len(),
        |i: int| looked_at(profiles[i]@, due.contains(profiles[i].name@), now_ms),
    )
}

/// The names of the profiles that a round finds stuck, among the first `count`.
pub open spec fn stuck_names(
    profiles: Seq<WatchedProfile>,
    due: Seq<Seq<char>>,
    now_ms: u64,
    count: nat,
) -> Seq<Seq<char>>
    decreases count,
{
    if count == 0 {
        Seq::empty()
    } else {
        let before = stuck_names(profiles, due, now_ms, (count - 1) as nat);
        let profile = profiles[count - 1];
        if found_stuck(profile@, due.contains(profile.name@), now_ms) {
            before.push(profile.name@)
        } else {
            before
        }
    }
}

/// The meaning of a list of profiles.
pub open spec fn watched_models(profiles: Seq<WatchedProfile>) -> Seq<WatchedModel> {
    Seq::new(profiles.len(), |i: int| profiles[i]@)
}

/// Whether every window of a list is in order.
pub open spec fn all_wf(profiles: Seq<WatchedProfile>) -> bool {
    forall|i: int| 0 <= i < profiles.len() ==> (#[trigger] profiles[i]).window.wf()
}

/// One round of the watchdog: what is too old is forgotten, the profiles whose time
/// has come are looked at, and the names of those that are stuck are given.
pub fn watchdog_round(
    schedule: &mut WatchdogSchedule,
    profiles: Vec<WatchedProfile>,
    now_ms: u64,
) -> (round: (Vec<WatchedProfile>, Vec<String>))
    requires
        all_wf(profiles@),
    ensures
        all_wf(round.0@),
        exists|scheduled: Seq<(String, u64)>|
            {
                let (after, due) = due_after(
                    old(schedule)@,
                    scheduled,
                    now_ms,
                    scheduled.len(),
                );
                &&& #[trigger] is_scheduled(scheduled, profiles@)
                &&& final(schedule)@ == after
                &&& watched_models(round.0@) == looked_at_all(profiles@, due, now_ms)
                &&& chars_list(round.1@) == stuck_names(
                    profiles@,
                    due,
                    now_ms,
                    profiles@.len(),
                )
            },
{
    let scheduled = scheduled_profiles(&profiles);
    let due = schedule.due_profiles(now_ms, &scheduled);
    let ghost due_names = chars_list(due@);
    let ghost all = profiles@;
    let mut rest = profiles;
    let mut looked: Vec<WatchedProfile> = Vec::new();
    let mut stuck_profiles: Vec<String> = Vec::new();
    assert(chars_list(stuck_profiles@) =~= Seq::<Seq<char>>::empty());
    while rest.len() > 0
        invariant
            all_wf(all),
            looked.len() + rest.len() == all.len(),
            rest@ == all.skip(looked.len() as int),
            due_names == chars_list(due@),
            all_wf(looked@),
            forall|i: int|
                0 <= i < looked.len() ==> (#[trigger] looked[i])@ == looked_at(
                    all[i]@,
                    due_names.contains(all[i].name@),
                    now_ms,
                ),
            chars_list(stuck_profiles@) == stuck_names(
                all,
                due_names,
                now_ms,
                looked.len() as nat,
            ),
        decreases rest.len(),
    {
        let ghost at = looked.len() as int;
        let profile = rest.remove(0);
        assert(profile == all[at]);
        assert(rest@ =~= all.skip(at + 1));
        let is_due = match crate::text::position_of(&due, profile.name.as_str()) {
            Some(_) => true,
            None => false,
        };
        proof {
            if is_due {
                let j = choose|j: int| 0 <= j < due.len() && due@[j]@ == profile.name@;
                assert(due_names[j] == profile.name@);
            } else if due_names.contains(profile.name@) {
                let j = choose|j: int| 0 <= j < due_names.len() && due_names[j] == profile.name@;
                assert(due@[j]@ == profile.name@);
            }
        }
        let name = profile.name.clone();
        let (profile, stuck) = look_at_profile(profile, is_due, now_ms);
        looked.push(profile);
        let ghost before = chars_list(stuck_profiles@);
        if stuck {
            stuck_profiles.push(name);
            assert(chars_list(stuck_profiles@) =~= before.push(name@));
        }
    }
    proof {
        assert(watched_models(looked@) =~= looked_at_all(all, due_names, now_ms));
        assert(is_scheduled(scheduled@, all));
    }
    (looked, stuck_profiles)
}

/// A profile that is being recovered is not recovered a second time, and one that
/// is not due, has no requests or cannot be recovered is left alone.
pub proof fn only_stuck_profiles_are_recovered(profile: WatchedModel, due: bool, now_ms: u64)
    requires
        found_stuck(profile, due, now_ms),
    ensures
        due,
        !profile.recovering,
        profile.recoverable,
        any_active(freshened(profile, now_ms).attempts),
        looked_at(profile, due, now_ms).recovering,
        !found_stuck(looked_at(profile, due, now_ms), due, now_ms),
{
}

/// Ends the recovery of a profile, and gives its status as it is logged.
pub fn finish_watchdog_recovery(profile: &mut WatchedProfile, recovery: &Metadata) -> (status:
    String)
    ensures
        status@ == logged_status(recovery@),
        final(profile)@ == (WatchedModel {
            recovering: false,
            counters: final(profile).counters,
            ..old(profile)@
        }),
        final(profile).window == old(profile).window,
        final(profile).counters == with_recovery(old(profile).counters, recovery@),
{
    profile.recovering = false;
    record_watchdog_recovery_result(&mut profile.counters, recovery)
}

/// What a recovery comes to that a shutdown ended.
pub fn cancelled_watchdog_recovery() -> (metadata: Metadata)
    ensures
        metadata@ == Bindings::empty().insert("local_recovery_status"@, "shutdown_cancelled"@),
{
    let mut metadata = Metadata::new();
    metadata.set("local_recovery_status", "shutdown_cancelled");
    metadata
}

// ---------------------------------------------------------------------------
// Waiting for a restart
// ---------------------------------------------------------------------------

/// What came of waiting for a restart.
#[derive(Clone, Copy, Debug, PartialEq, Eq, Structural)]
pub enum RestartQueueWaitResult {
    NotRecovering,
    Ready,
    Failed,
    TimedOut,
}

/// What a request that waits for a restart does next.
#[derive(Clone, Copy, Debug, PartialEq, Eq, Structural)]
pub enum RestartWait {
    Done(RestartQueueWaitResult),
    Wait { max_wait_ms: u64 },
}

/// What a request that waits for a restart does next. `waited` says whether it
/// has waited already.
pub open spec fn restart_wait(
    state: RecoveryModel,
    waited: bool,
    deadline_ms: u64,
    now_ms: u64,
) -> RestartWait {
    if !state.running {
        RestartWait::Done(
            if !waited {
                RestartQueueWaitResult::NotRecovering
            } else if state.last_result is Some && recovery_completed(state.last_result->Some_0) {
                RestartQueueWaitResult::Ready
            } else {
                RestartQueueWaitResult::Failed
            },
        )
    } else {
        let limit = match state.recovery_deadline {
            Some(recovery) => smaller(deadline_ms, recovery),
            None => deadline_ms,
        };
        if since(limit, now_ms) == 0 {
            RestartWait::Done(RestartQueueWaitResult::TimedOut)
        } else {
            RestartWait::Wait { max_wait_ms: since(limit, now_ms) }
        }
    }
}

/// Decides what a request that waits for a restart does next.
pub fn wait_for_restart_queue(
    state: &UpstreamStallRecoveryState,
    waited: bool,
    deadline_ms: u64,
    now_ms: u64,
) -> (wait: RestartWait)
    ensures
        wait == restart_wait(state@, waited, deadline_ms, now_ms),
{
    if !state.running {
        if !waited {
            return RestartWait::Done(RestartQueueWaitResult::NotRecovering);
        }
        let ready = match &state.last_result {
            Some(result) => local_recovery_completed_ready(result),
            None => false,
        };
        if ready {
            return RestartWait::Done(RestartQueueWaitResult::Ready);
        }
        return RestartWait::Done(RestartQueueWaitResult::Failed);
    }
    let limit: u64 = match state.recovery_deadline {
        Some(recovery) => min_u64(deadline_ms, recovery),
        None => deadline_ms,
    };
    let remaining: u64 = limit.saturating_sub(now_ms);
    if remaining == 0 {
        return RestartWait::Done(RestartQueueWaitResult::TimedOut);
    }
    RestartWait::Wait { max_wait_ms: remaining }
}

/// The queue in front of a restart.
#[derive(Clone, Copy, Debug, PartialEq, Eq, Structural)]
pub struct RestartQueueConfig {
    pub enabled: bool,
    pub queue_deadline_secs: u64,
    pub restart_timeout_secs: u64,
}

/// How long a request waits for a restart, in seconds.
pub fn restart_queue_wait_deadline(queue: RestartQueueConfig) -> (secs: u64)
    ensures
        secs == smaller(queue.queue_deadline_secs, queue.restart_timeout_secs),
{
    min_u64(queue.queue_deadline_secs, queue.restart_timeout_secs)
}

/// The text of what came of waiting for a restart, where it is recorded.
pub open spec fn restart_outcome_text(result: RestartQueueWaitResult) -> Option<Seq<char>> {
    match result {
        RestartQueueWaitResult::NotRecovering => None,
        RestartQueueWaitResult::Ready => Some("released_after_recovery"@),
        RestartQueueWaitResult::Failed => Some("recovery_failed"@),
        RestartQueueWaitResult::TimedOut => Some("timeout"@),
    }
}

/// The metadata of a request after it has waited for a restart.
pub open spec fn after_restart_wait(
    bindings: Bindings,
    result: RestartQueueWaitResult,
    queue: RestartQueueConfig,
) -> Bindings {
    match restart_outcome_text(result) {
        None => bindings,
        Some(text) => {
            let told = bindings.insert("restart_queue_outcome"@, text);
            if result is Ready {
                told
            } else {
                told.insert(
                    "restart_queue_deadline_secs"@,
                    decimal(queue.queue_deadline_secs as nat),
                )
            }
        },
    }
}

/// How long a request waits for a restart, in milliseconds.
pub open spec fn restart_wait_ms(queue: RestartQueueConfig) -> u64 {
    let millis = smaller(queue.queue_deadline_secs, queue.restart_timeout_secs) * 1000;
    if millis <= u64::MAX {
        millis as u64
    } else {
        u64::MAX
    }
}

/// Ends the wait for a restart: a request whose upstream did not come back fails,
/// and is told how long it may have waited.
pub fn finish_restart_wait(
    result: RestartQueueWaitResult,
    queue: RestartQueueConfig,
    profile: String,
    request_metadata: &mut Metadata,
) -> (finished: Result<(), ProxyError>)
    ensures
        final(request_metadata)@ == after_restart_wait(old(request_metadata)@, result, queue),
        match finished {
            Ok(_) => result is NotRecovering || result is Ready,
            Err(error) => {
                &&& result is Failed || result is TimedOut
                &&& error@ == with_metadata(
                    bare_error(
                        ErrorKind::UpstreamUnavailable {
                            profile,
                            waited_ms: restart_wait_ms(queue),
                        },
                    ),
                    final(request_metadata)@,
                )
            },
        },
{
    match result {
        RestartQueueWaitResult::NotRecovering => {
            return Ok(());
        },
        RestartQueueWaitResult::Ready => {
            request_metadata.set("restart_queue_outcome", "released_after_recovery");
            return Ok(());
        },
        RestartQueueWaitResult::Failed => {
            request_metadata.set("restart_queue_outcome", "recovery_failed");
        },
        RestartQueueWaitResult::TimedOut => {
            request_metadata.set("restart_queue_outcome", "timeout");
        },
    }
    request_metadata.set_number("restart_queue_deadline_secs", queue.queue_deadline_secs);
    let waited_ms: u64 = match restart_queue_wait_deadline(queue).checked_mul(1000) {
        Some(millis) => millis,
        None => 0xffff_ffff_ffff_ffff,
    };
    Err(
        ProxyError::upstream_unavailable(profile, waited_ms).with_request_metadata(
            request_metadata.clone(),
        ),
    )
}

/// The progress of a window is the sum of its samples, as far as 64 bits hold it:
/// nothing counts for nothing, one sample for itself, and two series of samples for as
/// much as both.
pub proof fn progress_adds_up(first: Seq<(u64, u64)>, second: Seq<(u64, u64)>, sample: (u64, u64))
    ensures
        total_progress(Seq::empty()) == 0,
        total_progress(seq![sample]) == sample.1,
        total_progress(first) + total_progress(second) <= 0xffff_ffff_ffff_ffff
            ==> total_progress(first + second) == total_progress(first) + total_progress(second),
        total_progress(first) + total_progress(second) > 0xffff_ffff_ffff_ffff
            ==> total_progress(first + second) == 0xffff_ffff_ffff_ffffu64,
    decreases second.len(),
{
    let single = seq![sample];
    assert(single.drop_last() =~= Seq::<(u64, u64)>::empty());
    if second.len() == 0 {
        assert(first + second =~= first);
    } else {
        progress_adds_up(first, second.drop_last(), sample);
        assert((first + second).drop_last() =~= first + second.drop_last());
        assert((first + second).last() == second.last());
    }
}

/// Samples of the same progress make that progress as many times as there are samples.
pub proof fn even_progress_multiplies(samples: Seq<(u64, u64)>, each: u64)
    requires
        forall|i: int| 0 <= i < samples.len() ==> (#[trigger] samples[i]).1 == each,
        samples.len() * each <= u64::MAX,
    ensures
        total_progress(samples) == samples.len() * each,
    decreases samples.len(),
{
    if samples.len() > 0 {
        let before = samples.drop_last();
        assert(samples.len() * each == before.len() * each + each) by (nonlinear_arith)
            requires
                samples.len() == before.len() + 1,
        ;
        assert forall|i: int| 0 <= i < before.len() implies (#[trigger] before[i]).1 == each by {
            assert(before[i] == samples[i]);
        }
        even_progress_multiplies(before, each);
        assert(samples.last() == samples[samples.len() - 1]);
    }
}

/// Exactly the samples that came before the detection window do not count.
pub proof fn stale_samples_do_not_count(
    stale: Seq<(u64, u64)>,
    fresh: Seq<(u64, u64)>,
    detection_window_ms: u64,
    now_ms: u64,
)
    requires
        forall|i: int| 0 <= i < stale.len() ==> (#[trigger] stale[i]).0 + detection_window_ms < now_ms,
        forall|i: int| 0 <= i < fresh.len() ==> (#[trigger] fresh[i]).0 + detection_window_ms >= now_ms,
    ensures
        fresh_samples(stale + fresh, detection_window_ms, now_ms) == fresh,
    decreases stale.len(),
{
    let samples = stale + fresh;
    if stale.len() == 0 {
        assert(samples =~= fresh);
        if fresh.len() > 0 {
            assert(fresh[0] == samples[0]);
        }
    } else {
        assert(samples[0] == stale[0]);
        assert(samples.drop_first() =~= stale.drop_first() + fresh);
        assert forall|i: int| 0 <= i < stale.drop_first().len() implies (
        #[trigger] stale.drop_first()[i]).0 + detection_window_ms < now_ms by {
            assert(stale.drop_first()[i] == stale[i + 1]);
        }
        stale_samples_do_not_count(stale.drop_first(), fresh, detection_window_ms, now_ms);
    }
}

/// Of the samples no more are kept than there may be, and the newest are.
pub proof fn newest_samples_are_kept(samples: Seq<(u64, u64)>, sample: (u64, u64))
    ensures
        newest(samples).len() <= 4_096,
        samples.len() <= 4_096 ==> newest(samples) == samples,
        samples.len() > 4_096 ==> newest(samples).len() == 4_096,
        forall|i: int|
            0 <= i < newest(samples).len() ==> #[trigger] newest(samples)[i] == samples[samples.len()
                - newest(samples).len() + i],
{
}

/// An upstream whose requests make enough progress within the detection window is not
/// recovered, whatever waits behind them.
pub proof fn working_upstreams_are_not_recovered(
    profile: WatchedModel,
    due: bool,
    now_ms: u64,
    stale: Seq<(u64, u64)>,
    fresh: Seq<(u64, u64)>,
)
    requires
        profile.enabled,
        profile.window.samples == stale + fresh,
        forall|i: int|
            0 <= i < stale.len() ==> (#[trigger] stale[i]).0 + profile.detection_window_ms < now_ms,
        forall|i: int|
            0 <= i < fresh.len() ==> (#[trigger] fresh[i]).0 + profile.detection_window_ms >= now_ms,
        total_progress(fresh) >= profile.min_output_tokens,
    ensures
        !found_stuck(profile, due, now_ms),
{
    stale_samples_do_not_count(stale, fresh, profile.detection_window_ms, now_ms);
    let none = Seq::<(u64, u64)>::empty();
    stale_samples_do_not_count(none, fresh, profile.detection_window_ms, now_ms);
    assert(none + fresh =~= fresh);
}

/// An upstream all of whose requests have waited for longer than the detection window
/// without an answer, and which makes too little progress within it, is recovered when
/// it is looked at, if it can be and is not already.
pub proof fn stuck_upstreams_are_recovered(
    profile: WatchedModel,
    now_ms: u64,
    id: u64,
    stale: Seq<(u64, u64)>,
    fresh: Seq<(u64, u64)>,
)
    requires
        profile.enabled,
        profile.recoverable,
        !profile.recovering,
        profile.window.samples == stale + fresh,
        forall|i: int|
            0 <= i < stale.len() ==> (#[trigger] stale[i]).0 + profile.detection_window_ms < now_ms,
        forall|i: int|
            0 <= i < fresh.len() ==> (#[trigger] fresh[i]).0 + profile.detection_window_ms >= now_ms,
        total_progress(fresh) < profile.min_output_tokens,
        profile.window.attempts.contains_key(id),
        profile.window.attempts[id].completed is None,
        forall|other: u64| #[trigger]
            profile.window.attempts.contains_key(other) && profile.window.attempts[other].completed
                is None ==> profile.window.attempts[other].response_started is None
                && profile.window.attempts[other].started_at + profile.detection_window_ms <= now_ms,
    ensures
        found_stuck(profile, true, now_ms),
        !found_stuck(profile, false, now_ms),
{
    stale_samples_do_not_count(stale, fresh, profile.detection_window_ms, now_ms);
    let none = Seq::<(u64, u64)>::empty();
    stale_samples_do_not_count(none, fresh, profile.detection_window_ms, now_ms);
    assert(none + fresh =~= fresh);
    let window = freshened(profile, now_ms);
    assert(window.attempts.contains_key(id));
    assert(is_active(window.attempts, id));
    let kept = kept_attempts(window.attempts, profile.detection_window_ms, now_ms);
    assert forall|other: u64| !excuses(kept, other, profile.detection_window_ms, now_ms) by {
        if is_active(kept, other) {
            assert(profile.window.attempts.contains_key(other));
        }
    }
}

/// A request that is young, or whose answer has begun, shows that its upstream is not
/// stuck.
pub proof fn answering_upstreams_are_not_recovered(
    window: WindowModel,
    detection_window_ms: u64,
    minimum: u64,
    now_ms: u64,
    id: u64,
)
    requires
        window.attempts.contains_key(id),
        window.attempts[id].completed is None,
        window.attempts[id].response_started is Some || now_ms < window.attempts[id].started_at
            + detection_window_ms,
        detection_window_ms > 0,
    ensures
        !too_little(window, detection_window_ms, minimum, now_ms).0,
{
    alive_upstreams_are_not_stuck(window, detection_window_ms, minimum, now_ms, id);
}

/// Profiles are recovered one recovery at a time, only when they are looked at, only
/// with requests under way, and only where there is a way to recover them.
pub proof fn recoveries_are_for_the_stuck(profile: WatchedModel, due: bool, now_ms: u64)
    ensures
        !due || profile.recovering || !profile.recoverable ==> !found_stuck(profile, due, now_ms),
        (forall|id: u64| #[trigger]
            profile.window.attempts.contains_key(id) ==> profile.window.attempts[id].completed
                is Some) ==> !found_stuck(profile, due, now_ms),
        found_stuck(profile, due, now_ms) ==> looked_at(profile, due, now_ms).recovering,
        !found_stuck(profile, due, now_ms) ==> looked_at(profile, due, now_ms).recovering
            == profile.recovering && looked_at(profile, due, now_ms).counters == profile.counters,
{
    let window = freshened(profile, now_ms);
    if forall|id: u64| #[trigger]
        profile.window.attempts.contains_key(id) ==> profile.window.attempts[id].completed is Some {
        assert forall|id: u64| !is_active(window.attempts, id) by {
            if window.attempts.contains_key(id) {
                assert(profile.window.attempts.contains_key(id));
            }
        }
    }
}

/// A profile is due when it is new, when its interval is over and when the interval has
/// changed.
pub proof fn profiles_fall_due(
    schedule: ScheduleModel,
    name: Seq<char>,
    interval_ms: u64,
    now_ms: u64,
)
    ensures
        !schedule.contains_key(name) ==> is_due(schedule, name, interval_ms, now_ms),
        schedule.contains_key(name) && schedule[name].applied_interval != interval_ms ==> is_due(
            schedule,
            name,
            interval_ms,
            now_ms,
        ),
        schedule.contains_key(name) && schedule[name].applied_interval == interval_ms ==> (is_due(
            schedule,
            name,
            interval_ms,
            now_ms,
        ) <==> now_ms >= schedule[name].next_due),
{
}

/// What the watchdog has done for several profiles is what it has done for each of them
/// together, as far as 64 bits hold it.
pub proof fn counts_of_profiles_add_up(
    first: Seq<WatchdogMetricsSnapshot>,
    one: WatchdogMetricsSnapshot,
)
    ensures
        ({
            let (sum, all) = (summed(first), summed(first.push(one)));
            &&& sum.detections + one.detections <= u64::MAX ==> all.detections == sum.detections
                + one.detections
            &&& sum.restarts + one.restarts <= u64::MAX ==> all.restarts == sum.restarts
                + one.restarts
            &&& sum.recovery_successes + one.recovery_successes <= u64::MAX
                ==> all.recovery_successes == sum.recovery_successes + one.recovery_successes
            &&& sum.recovery_timeouts + one.recovery_timeouts <= u64::MAX ==> all.recovery_timeouts
                == sum.recovery_timeouts + one.recovery_timeouts
            &&& sum.restart_queue_depth + one.restart_queue_depth <= u64::MAX
                ==> all.restart_queue_depth == sum.restart_queue_depth + one.restart_queue_depth
        }),
        summed(Seq::empty()).detections == 0,
        summed(Seq::empty()).restarts == 0,
        summed(Seq::empty()).recovery_successes == 0,
        summed(Seq::empty()).recovery_timeouts == 0,
        summed(Seq::empty()).restart_queue_depth == 0,
{
    assert(first.push(one).drop_last() =~= first);
}

/// A request waits for a restart until the restart ends, its own time is over or that
/// of the restart is, whichever comes first; it goes on only after a recovery that was
/// completed.
pub proof fn restarts_are_waited_for_in_time(
    state: RecoveryModel,
    waited: bool,
    deadline_ms: u64,
    now_ms: u64,
)
    ensures
        ({
            let wait = restart_wait(state, waited, deadline_ms, now_ms);
            &&& wait matches RestartWait::Wait { max_wait_ms } ==> state.running && max_wait_ms > 0
                && now_ms + max_wait_ms <= deadline_ms && (state.recovery_deadline
                matches Some(recovery) ==> now_ms + max_wait_ms <= recovery)
            &&& state.running && now_ms >= deadline_ms ==> wait == RestartWait::Done(
                RestartQueueWaitResult::TimedOut,
            )
            &&& state.running && now_ms < deadline_ms && (state.recovery_deadline
                matches Some(recovery) ==> now_ms < recovery) ==> wait is Wait
            &&& !state.running && !waited ==> wait == RestartWait::Done(
                RestartQueueWaitResult::NotRecovering,
            )
            &&& !state.running && waited && !(state.last_result matches Some(result)
                && recovery_completed(result)) ==> wait == RestartWait::Done(
                RestartQueueWaitResult::Failed,
            )
            &&& !state.running && waited && (state.last_result matches Some(result)
                && recovery_completed(result)) ==> wait == RestartWait::Done(
                RestartQueueWaitResult::Ready,
            )
        }),
{
}

/// Progress is counted by what a path asks for.
pub proof fn units_follow_the_path(path: Seq<char>)
    ensures
        has_part(path, "embeddings"@) ==> progress_unit(path) is Embedding,
        !has_part(path, "embeddings"@) && (has_part(path, "rerank"@) || has_part(path, "score"@))
            ==> progress_unit(path) is Reranker,
        !has_part(path, "embeddings"@) && !has_part(path, "rerank"@) && !has_part(path, "score"@)
            ==> progress_unit(path) is Chat,
{
}

/// A recovery that succeeded counts as a success, one that ran out of time as such, and
/// any other as neither.
pub proof fn recoveries_count_by_their_end(counters: WatchdogMetricsSnapshot, recovery: Bindings)
    requires
        recovery.contains_key("local_recovery_status"@),
        counters.recovery_successes < u64::MAX,
        counters.recovery_timeouts < u64::MAX,
    ensures
        ({
            let status = recovery["local_recovery_status"@];
            let after = with_recovery(counters, recovery);
            let timed_out = status == "completion_timeout"@ || status == "episode_timeout"@
                || status == "join_timeout"@ || status == "readiness_timeout"@;
            &&& status == "succeeded"@ ==> after.recovery_successes == counters.recovery_successes
                + 1 && after.recovery_timeouts == counters.recovery_timeouts
            &&& timed_out ==> after.recovery_timeouts == counters.recovery_timeouts + 1
                && after.recovery_successes == counters.recovery_successes
            &&& status != "succeeded"@ && !timed_out ==> after == counters
            &&& after.detections == counters.detections && after.restarts == counters.restarts
            &&& logged_status(recovery) == status
        }),
{
    reveal_strlit("succeeded");
    reveal_strlit("completion_timeout");
    reveal_strlit("episode_timeout");
    reveal_strlit("join_timeout");
    reveal_strlit("readiness_timeout");
    assert("succeeded"@.len() == 9);
    assert("completion_timeout"@.len() == 18);
    assert("episode_timeout"@.len() == 15);
    assert("join_timeout"@.len() == 12);
    assert("readiness_timeout"@.len() == 17);
}

/// A request waits for a restart as long as the queue and the restart both allow.
pub proof fn restart_waits_are_held(queue: RestartQueueConfig)
    requires
        queue.queue_deadline_secs <= 1_000_000_000_000,
        queue.restart_timeout_secs <= 1_000_000_000_000,
    ensures
        restart_wait_ms(queue) <= 1000 * queue.queue_deadline_secs,
        restart_wait_ms(queue) <= 1000 * queue.restart_timeout_secs,
        restart_wait_ms(queue) == 1000 * queue.queue_deadline_secs || restart_wait_ms(queue) == 1000
            * queue.restart_timeout_secs,
{
}

/// What a wait for a restart came to is told of the request; where it was in vain, how
/// long it could be too.
pub proof fn restart_waits_are_told(bindings: Bindings, queue: RestartQueueConfig)
    ensures
        after_restart_wait(bindings, RestartQueueWaitResult::NotRecovering, queue) == bindings,
        bound_to(
            after_restart_wait(bindings, RestartQueueWaitResult::Ready, queue),
            "restart_queue_outcome"@,
            "released_after_recovery"@,
        ),
        bound_to(
            after_restart_wait(bindings, RestartQueueWaitResult::Failed, queue),
            "restart_queue_outcome"@,
            "recovery_failed"@,
        ),
        bound_to(
            after_restart_wait(bindings, RestartQueueWaitResult::TimedOut, queue),
            "restart_queue_outcome"@,
            "timeout"@,
        ),
        bound_to(
            after_restart_wait(bindings, RestartQueueWaitResult::TimedOut, queue),
            "restart_queue_deadline_secs"@,
            decimal(queue.queue_deadline_secs as nat),
        ),
{
    reveal_strlit("restart_queue_outcome");
    reveal_strlit("restart_queue_deadline_secs");
    assert("restart_queue_outcome"@.len() == 21);
    assert("restart_queue_deadline_secs"@.len() == 27);
}

/// An attempt is forgotten once it has been over for as long as is looked back, and not
/// before; one that still runs is never forgotten.
pub proof fn finished_attempts_are_forgotten(
    attempts: Map<u64, WatchdogAttempt>,
    id: u64,
    window_ms: u64,
    now_ms: u64,
)
    requires
        attempts.contains_key(id),
    ensures
        attempts[id].completed is None ==> kept_attempts(attempts, window_ms, now_ms).contains_key(
            id,
        ),
        attempts[id].completed matches Some(at) ==> (kept_attempts(
            attempts,
            window_ms,
            now_ms,
        ).contains_key(id) <==> at + window_ms >= now_ms),
        kept_attempts(attempts, window_ms, now_ms).contains_key(id) ==> kept_attempts(
            attempts,
            window_ms,
            now_ms,
        )[id] == attempts[id],
{
}

/// A profile is found stuck under its name, and only then; those before it come first.
pub proof fn stuck_profiles_are_named(
    profiles: Seq<WatchedProfile>,
    due: Seq<Seq<char>>,
    now_ms: u64,
    count: nat,
)
    requires
        0 < count <= profiles.len(),
    ensures
        ({
            let before = stuck_names(profiles, due, now_ms, (count - 1) as nat);
            let names = stuck_names(profiles, due, now_ms, count);
            let profile = profiles[count - 1];
            let stuck = found_stuck(profile@, due.contains(profile.name@), now_ms);
            &&& stuck ==> names == before.push(profile.name@)
            &&& !stuck ==> names == before
            &&& !due.contains(profile.name@) ==> !stuck
            &&& profile.recovering ==> !stuck
        }),
{
}

/// Every profile that is watched is scheduled at its own interval, in order, and no
/// other is.
pub proof fn watched_profiles_are_scheduled(
    scheduled: Seq<(String, u64)>,
    profiles: Seq<WatchedProfile>,
    i: int,
)
    requires
        is_scheduled(scheduled, profiles),
        0 <= i < profiles.len(),
        profiles[i].enabled,
    ensures
        exists|j: int|
            0 <= j < scheduled.len() && (#[trigger] scheduled[j]).0@ == profiles[i].name@
                && scheduled[j].1 == profiles[i].check_interval_ms,
        scheduled.len() <= profiles.len(),
    decreases profiles.len(),
{
    scheduled_are_no_more(scheduled, profiles);
    if i == profiles.len() - 1 {
        assert(scheduled[scheduled.len() - 1] == scheduled.last());
    } else {
        let before = profiles.drop_last();
        assert(before[i] == profiles[i]);
        if profiles.last().enabled {
            watched_profiles_are_scheduled(scheduled.drop_last(), before, i);
            let j = choose|j: int|
                0 <= j < scheduled.drop_last().len() && (#[trigger] scheduled.drop_last()[j]).0@
                    == before[i].name@ && scheduled.drop_last()[j].1 == before[i].check_interval_ms;
            assert(scheduled[j] == scheduled.drop_last()[j]);
        } else {
            watched_profiles_are_scheduled(scheduled, before, i);
        }
    }
}

proof fn scheduled_are_no_more(scheduled: Seq<(String, u64)>, profiles: Seq<WatchedProfile>)
    requires
        is_scheduled(scheduled, profiles),
    ensures
        scheduled.len() <= profiles.len(),
    decreases profiles.len(),
{
    if profiles.len() > 0 {
        if profiles.last().enabled {
            scheduled_are_no_more(scheduled.drop_last(), profiles.drop_last());
        } else {
            scheduled_are_no_more(scheduled, profiles.drop_last());
        }
    }
}

/// A recovery that ran into any of its limits timed out; and a wait for a restart ends in
/// one of three ways.
pub proof fn recoveries_time_out_at_their_limits(recovery: Bindings, status: Seq<char>)
    ensures
        recovery_timed_out(recovery.insert("local_recovery_status"@, "completion_timeout"@)),
        recovery_timed_out(recovery.insert("local_recovery_status"@, "episode_timeout"@)),
        recovery_timed_out(recovery.insert("local_recovery_status"@, "join_timeout"@)),
        recovery_timed_out(recovery.insert("local_recovery_status"@, "readiness_timeout"@)),
        !recovery_timed_out(recovery.insert("local_recovery_status"@, "succeeded"@)),
        !recovery_timed_out(recovery.remove("local_recovery_status"@)),
        restart_outcome_text(RestartQueueWaitResult::NotRecovering) is None,
        restart_outcome_text(RestartQueueWaitResult::Ready) == Some("released_after_recovery"@),
        restart_outcome_text(RestartQueueWaitResult::Failed) == Some("recovery_failed"@),
        restart_outcome_text(RestartQueueWaitResult::TimedOut) == Some("timeout"@),
{
    reveal_strlit("completion_timeout");
    reveal_strlit("episode_timeout");
    reveal_strlit("join_timeout");
    reveal_strlit("readiness_timeout");
    reveal_strlit("succeeded");
    assert("completion_timeout"@.len() == 18);
    assert("episode_timeout"@.len() == 15);
    assert("join_timeout"@.len() == 12);
    assert("readiness_timeout"@.len() == 17);
    assert("succeeded"@.len() == 9);
}

/// One more profile changes nothing for those before it; it is told where it is due, and
/// then falls due again after its interval.
pub proof fn profiles_fall_due_one_by_one(
    schedule: ScheduleModel,
    profiles: Seq<(String, u64)>,
    profile: (String, u64),
    now_ms: u64,
)
    ensures
        ({
            let (before, due) = due_after(schedule, profiles, now_ms, profiles.len());
            let (after, more) = due_after(
                schedule,
                profiles.push(profile),
                now_ms,
                (profiles.len() + 1) as nat,
            );
            let name = profile.0@;
            &&& is_due(before, name, profile.1, now_ms) ==> more == due.push(name)
                && after.contains_key(name) && after[name].applied_interval == profile.1
            &&& is_due(before, name, profile.1, now_ms) && now_ms + profile.1 <= u64::MAX
                ==> after[name].next_due == now_ms + profile.1
            &&& !is_due(before, name, profile.1, now_ms) ==> more == due && after == before
        }),
        due_after(schedule, profiles, now_ms, 0) == (schedule, Seq::<Seq<char>>::empty()),
        no_watchdog_metrics().detections == 0 && no_watchdog_metrics().restarts == 0
            && no_watchdog_metrics().recovery_successes == 0
            && no_watchdog_metrics().recovery_timeouts == 0
            && no_watchdog_metrics().restart_queue_depth == 0,
{
    later_profiles_do_not_matter(schedule, profiles, profile, now_ms, profiles.len());
    assert(profiles.push(profile)[profiles.len() as int] == profile);
}

proof fn later_profiles_do_not_matter(
    schedule: ScheduleModel,
    profiles: Seq<(String, u64)>,
    profile: (String, u64),
    now_ms: u64,
    count: nat,
)
    requires
        count <= profiles.len(),
    ensures
        due_after(schedule, profiles.push(profile), now_ms, count) == due_after(
            schedule,
            profiles,
            now_ms,
            count,
        ),
    decreases count,
{
    if count > 0 {
        later_profiles_do_not_matter(schedule, profiles, profile, now_ms, (count - 1) as nat);
        assert(profiles.push(profile)[count - 1] == profiles[count - 1]);
    }
}

/// Only windows that are watched are freshened.
pub proof fn watched_windows_are_freshened(profile: WatchedModel, now_ms: u64)
    ensures
        !profile.enabled ==> freshened(profile, now_ms) == profile.window,
        profile.enabled ==> freshened(profile, now_ms).samples == fresh_samples(
            profile.window.samples,
            profile.detection_window_ms,
            now_ms,
        ),
        profile.enabled ==> freshened(profile, now_ms).attempts == kept_attempts(
            profile.window.attempts,
            profile.detection_window_ms,
            now_ms,
        ),
{
}

} // verus!
