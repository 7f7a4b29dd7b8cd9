//! Shutdown, dropped clients, and the bounded backlog of record keeping.

use crate::clock::since;
use crate::failures::next_count;
use vstd::prelude::*;

verus! {

/// Largest number of record-keeping tasks at one time.
pub const MAX_PERSISTENCE_TASKS: usize = 64;

/// Shortest time, in milliseconds, between two reports of dropped records.
pub const PERSISTENCE_BACKLOG_DROP_LOG_INTERVAL_MS: u64 = 10_000;

/// The time of the last report before there was one.
pub const PERSISTENCE_BACKLOG_DROP_LOG_NEVER_EMITTED: u64 = 0xffff_ffff_ffff_ffff;

/// Whether the server is shutting down.
pub struct ShutdownGate {
    pub closed: bool,
}

impl ShutdownGate {
    /// A gate that is open.
    pub fn new() -> (gate: ShutdownGate)
        ensures
            !gate.closed,
    {
        ShutdownGate { closed: false }
    }

    /// Begins the shutdown. The waiters have to be told the first time only.
    pub fn begin_shutdown(&mut self) -> (tell_waiters: bool)
        ensures
            final(self).closed,
            tell_waiters == !old(self).closed,
    {
        let tell_waiters = !self.closed;
        self.closed = true;
        tell_waiters
    }

    /// Whether the shutdown has begun.
    pub fn is_shutting_down(&self) -> (closed: bool)
        ensures
            closed == self.closed,
    {
        self.closed
    }
}

/// Whether the client has gone away. Those who hold a signal share it.
pub struct DownstreamDropSignal {
    pub dropped: bool,
}

impl DownstreamDropSignal {
    /// A client that is there.
    pub fn new() -> (signal: DownstreamDropSignal)
        ensures
            signal == untouched_signal(),
    {
        DownstreamDropSignal { dropped: false }
    }

    /// Notes that the client has gone away.
    pub fn mark_dropped(&mut self)
        ensures
            *final(self) == marked_signal(*old(self)),
    {
        self.dropped = true;
    }

    /// Whether the client has gone away.
    pub fn is_dropped(&self) -> (dropped: bool)
        ensures
            dropped == self.dropped,
    {
        self.dropped
    }
}

/// The signal of a client that is there.
pub open spec fn untouched_signal() -> DownstreamDropSignal {
    DownstreamDropSignal { dropped: false }
}

/// A signal once the client is noted to have gone away.
pub open spec fn marked_signal(signal: DownstreamDropSignal) -> DownstreamDropSignal {
    DownstreamDropSignal { dropped: true, ..signal }
}

/// What is done with signals.
pub enum SignalAct {
    /// A client comes, with a signal of its own.
    New { holder: nat },
    /// The signal of one holder is given to another one, too.
    Share { from: nat, to: nat },
    /// A holder notes that the client has gone away.
    Mark { holder: nat },
}

/// Signals, and who holds which.
#[verifier::ext_equal]
pub struct Signals {
    pub signals: Seq<DownstreamDropSignal>,
    pub held: Map<nat, nat>,
}

impl Signals {
    /// Whether a holder reads that the client has gone away.
    pub open spec fn reads(self, holder: nat) -> bool {
        self.held.contains_key(holder) && self.signals[self.held[holder] as int].dropped
    }
}

/// Signals after something was done with them.
pub open spec fn acted(before: Signals, act: SignalAct) -> Signals {
    match act {
        SignalAct::New { holder } => Signals {
            signals: before.signals.push(untouched_signal()),
            held: before.held.insert(holder, before.signals.len()),
        },
        SignalAct::Share { from, to } => if before.held.contains_key(from) {
            Signals { held: before.held.insert(to, before.held[from]), ..before }
        } else {
            before
        },
        SignalAct::Mark { holder } => if before.held.contains_key(holder) {
            let at = before.held[holder] as int;
            Signals {
                signals: before.signals.update(at, marked_signal(before.signals[at])),
                ..before
            }
        } else {
            before
        },
    }
}

/// The signals after all that was done with them.
pub open spec fn signals_after(acts: Seq<SignalAct>) -> Signals
    decreases acts.len(),
{
    if acts.len() == 0 {
        Signals { signals: Seq::empty(), held: Map::empty() }
    } else {
        acted(signals_after(acts.drop_last()), acts.last())
    }
}

proof fn lemma_signals_exist(acts: Seq<SignalAct>)
    ensures
        forall|holder: nat| #[trigger]
            signals_after(acts).held.contains_key(holder) ==> signals_after(acts).held[holder]
                < signals_after(acts).signals.len(),
    decreases acts.len(),
{
    if acts.len() > 0 {
        let before = signals_after(acts.drop_last());
        lemma_signals_exist(acts.drop_last());
        assert forall|holder: nat| #[trigger]
            signals_after(acts).held.contains_key(holder) implies signals_after(acts).held[holder]
            < signals_after(acts).signals.len() by {
            assert(before.held.contains_key(holder) ==> before.held[holder]
                < before.signals.len());
            match acts.last() {
                SignalAct::Share { from, .. } => {
                    assert(before.held.contains_key(from) ==> before.held[from]
                        < before.signals.len());
                },
                _ => {},
            }
        }
    }
}

/// A holder that was given the signal of another one reads what that one reads.
pub proof fn holders_share_their_signal(acts: Seq<SignalAct>, from: nat, to: nat)
    requires
        signals_after(acts).held.contains_key(from),
    ensures
        ({
            let after = signals_after(acts.push(SignalAct::Share { from, to }));
            &&& after.held.contains_key(to)
            &&& after.held[to] == after.held[from]
            &&& after.reads(to) == signals_after(acts).reads(from)
        }),
{
    assert(acts.push(SignalAct::Share { from, to }).drop_last() =~= acts);
}

/// That a client has gone away is seen by all who hold its signal, whoever noted it,
/// and by no others. To note it again changes nothing.
pub proof fn marks_are_seen_by_all_holders(acts: Seq<SignalAct>, marking: nat, reading: nat)
    requires
        signals_after(acts).held.contains_key(marking),
        signals_after(acts).held.contains_key(reading),
    ensures
        ({
            let before = signals_after(acts);
            let mark = SignalAct::Mark { holder: marking };
            let after = signals_after(acts.push(mark));
            &&& after.reads(reading) == (before.reads(reading) || before.held[reading]
                == before.held[marking])
            &&& after.held == before.held
            &&& signals_after(acts.push(mark).push(mark)) == after
        }),
{
    let mark = SignalAct::Mark { holder: marking };
    assert(acts.push(mark).drop_last() =~= acts);
    assert(acts.push(mark).push(mark).drop_last() =~= acts.push(mark));
    lemma_signals_exist(acts);
    assert(signals_after(acts.push(mark).push(mark)) =~= signals_after(acts.push(mark)));
}

/// Whether something leaves a holder its signal.
pub open spec fn leaves_signal(act: SignalAct, holder: nat) -> bool {
    match act {
        SignalAct::New { holder: new } => new != holder,
        SignalAct::Share { to, .. } => to != holder,
        SignalAct::Mark { .. } => true,
    }
}

/// A client that has gone away does not come back: who reads it once reads it for good.
pub proof fn marks_last(acts: Seq<SignalAct>, later: Seq<SignalAct>, holder: nat)
    requires
        signals_after(acts).reads(holder),
        forall|i: int| 0 <= i < later.len() ==> leaves_signal(#[trigger] later[i], holder),
    ensures
        signals_after(acts + later).reads(holder),
    decreases later.len(),
{
    if later.len() == 0 {
        assert(acts + later =~= acts);
    } else {
        let before = later.drop_last();
        assert forall|i: int| 0 <= i < before.len() implies leaves_signal(
            #[trigger] before[i],
            holder,
        ) by {
            assert(before[i] == later[i]);
        }
        marks_last(acts, before, holder);
        assert((acts + later).drop_last() =~= acts + before);
        assert(leaves_signal(later[later.len() - 1], holder));
        lemma_signals_exist(acts + before);
    }
}

/// When dropped records were last reported, and how many there were.
#[derive(Clone, Copy, Debug, PartialEq, Eq, Structural)]
pub struct PersistenceBacklogDropLog {
    pub last_emitted_at_ms: u64,
    pub last_emitted_total: u64,
}

/// Whether a report is due.
pub open spec fn report_due(log: PersistenceBacklogDropLog, elapsed_ms: u64) -> bool {
    log.last_emitted_at_ms == PERSISTENCE_BACKLOG_DROP_LOG_NEVER_EMITTED || since(
        elapsed_ms,
        log.last_emitted_at_ms,
    ) >= PERSISTENCE_BACKLOG_DROP_LOG_INTERVAL_MS
}

impl PersistenceBacklogDropLog {
    /// A log without reports.
    pub fn new() -> (log: PersistenceBacklogDropLog)
        ensures
            log.last_emitted_at_ms == PERSISTENCE_BACKLOG_DROP_LOG_NEVER_EMITTED,
            log.last_emitted_total == 0,
    {
        PersistenceBacklogDropLog {
            last_emitted_at_ms: PERSISTENCE_BACKLOG_DROP_LOG_NEVER_EMITTED,
            last_emitted_total: 0,
        }
    }

    /// Reports how many records were dropped since the last report, if a report
    /// is due.
    pub fn take_report(&mut self, elapsed_ms: u64, dropped_total: u64) -> (report: Option<u64>)
        ensures
            report_due(*old(self), elapsed_ms) ==> report == Some(
                since(dropped_total, old(self).last_emitted_total),
            ) && *final(self) == (PersistenceBacklogDropLog {
                last_emitted_at_ms: elapsed_ms,
                last_emitted_total: dropped_total,
            }),
            !report_due(*old(self), elapsed_ms) ==> report is None && *final(self) == *old(self),
    {
        if self.last_emitted_at_ms != PERSISTENCE_BACKLOG_DROP_LOG_NEVER_EMITTED
            && elapsed_ms.saturating_sub(self.last_emitted_at_ms)
            < PERSISTENCE_BACKLOG_DROP_LOG_INTERVAL_MS {
            return None;
        }
        let previous_total: u64 = self.last_emitted_total;
        self.last_emitted_at_ms = elapsed_ms;
        self.last_emitted_total = dropped_total;
        Some(dropped_total.saturating_sub(previous_total))
    }
}

/// Two reports are never closer together than the report interval.
pub proof fn reports_are_spaced(log: PersistenceBacklogDropLog, now_ms: u64, later_ms: u64, total: u64)
    requires
        report_due(log, now_ms),
        now_ms <= later_ms,
        later_ms - now_ms < PERSISTENCE_BACKLOG_DROP_LOG_INTERVAL_MS,
        now_ms != PERSISTENCE_BACKLOG_DROP_LOG_NEVER_EMITTED,
    ensures
        !report_due(
            PersistenceBacklogDropLog { last_emitted_at_ms: now_ms, last_emitted_total: total },
            later_ms,
        ),
{
}

/// What becomes of a record that is to be kept.
#[derive(Clone, Copy, Debug, PartialEq, Eq, Structural)]
pub enum PersistenceStep {
    /// It is written by a task of its own.
    Run,
    /// It is dropped: `dropped_total` records have been dropped so far, and
    /// `report` of them since the last report, if one is due.
    Drop { dropped_total: u64, report: Option<u64> },
}

/// The record-keeping tasks.
pub struct PersistenceTasks {
    /// How many tasks there may be at one time.
    pub capacity: usize,
    /// How many tasks are writing.
    pub writing: usize,
    /// How many tasks are being waited for at shutdown.
    pub in_flight: usize,
    /// How many records have been dropped.
    pub dropped: u64,
    pub backlog_drop_log: PersistenceBacklogDropLog,
}

impl PersistenceTasks {
    /// No more tasks write than there may be, and each is waited for.
    pub open spec fn wf(self) -> bool {
        self.writing <= self.capacity && self.writing <= self.in_flight
    }

    /// No tasks.
    pub fn new() -> (tasks: PersistenceTasks)
        ensures
            tasks.wf(),
            tasks.capacity == MAX_PERSISTENCE_TASKS,
            tasks.writing == 0,
            tasks.in_flight == 0,
            tasks.dropped == 0,
            tasks.backlog_drop_log.last_emitted_at_ms
                == PERSISTENCE_BACKLOG_DROP_LOG_NEVER_EMITTED,
            tasks.backlog_drop_log.last_emitted_total == 0,
    {
        PersistenceTasks {
            capacity: MAX_PERSISTENCE_TASKS,
            writing: 0,
            in_flight: 0,
            dropped: 0,
            backlog_drop_log: PersistenceBacklogDropLog::new(),
        }
    }

    /// Waits for one more task at shutdown.
    pub fn track(&mut self)
        requires
            old(self).wf(),
            old(self).in_flight < usize::MAX,
        ensures
            final(self).wf(),
            final(self).in_flight == old(self).in_flight + 1,
            final(self).writing == old(self).writing,
            final(self).capacity == old(self).capacity,
            final(self).dropped == old(self).dropped,
            final(self).backlog_drop_log == old(self).backlog_drop_log,
    {
        self.in_flight = self.in_flight + 1;
    }

    /// Starts a task for one record, or drops the record where all tasks are
    /// busy.
    pub fn start(&mut self, elapsed_ms: u64) -> (step: PersistenceStep)
        requires
            old(self).wf(),
            old(self).in_flight < usize::MAX,
        ensures
            final(self).wf(),
            final(self).capacity == old(self).capacity,
            old(self).writing < old(self).capacity ==> {
                &&& step == PersistenceStep::Run
                &&& final(self).writing == old(self).writing + 1
                &&& final(self).in_flight == old(self).in_flight + 1
                &&& final(self).dropped == old(self).dropped
                &&& final(self).backlog_drop_log == old(self).backlog_drop_log
            },
            old(self).writing == old(self).capacity ==> {
                &&& final(self).writing == old(self).writing
                &&& final(self).in_flight == old(self).in_flight
                &&& final(self).dropped == next_count(old(self).dropped)
                &&& step == PersistenceStep::Drop {
                    dropped_total: crate::clock::held_sum(old(self).dropped, 1),
                    report: if report_due(old(self).backlog_drop_log, elapsed_ms) {
                        Some(
                            since(
                                crate::clock::held_sum(old(self).dropped, 1),
                                old(self).backlog_drop_log.last_emitted_total,
                            ),
                        )
                    } else {
                        None
                    },
                }
                &&& final(self).backlog_drop_log == if report_due(
                    old(self).backlog_drop_log,
                    elapsed_ms,
                ) {
                    PersistenceBacklogDropLog {
                        last_emitted_at_ms: elapsed_ms,
                        last_emitted_total: crate::clock::held_sum(old(self).dropped, 1),
                    }
                } else {
                    old(self).backlog_drop_log
                }
            },
    {
        if self.writing >= self.capacity {
            let dropped_total: u64 = self.dropped.saturating_add(1);
            self.dropped = self.dropped.wrapping_add(1);
            let report = self.backlog_drop_log.take_report(elapsed_ms, dropped_total);
            return PersistenceStep::Drop { dropped_total, report };
        }
        self.writing = self.writing + 1;
        self.in_flight = self.in_flight + 1;
        PersistenceStep::Run
    }

    /// Ends a task. Whoever waits for all tasks has to be told when it was the
    /// last one.
    pub fn finish(&mut self, was_writing: bool) -> (idle: bool)
        requires
            old(self).wf(),
            old(self).in_flight > 0,
            was_writing ==> old(self).writing > 0,
            !was_writing ==> old(self).writing < old(self).in_flight,
        ensures
            final(self).wf(),
            final(self).in_flight == old(self).in_flight - 1,
            final(self).writing == old(self).writing - if was_writing {
                1int
            } else {
                0int
            },
            final(self).capacity == old(self).capacity,
            final(self).dropped == old(self).dropped,
            final(self).backlog_drop_log == old(self).backlog_drop_log,
            idle == (final(self).in_flight == 0),
    {
        if was_writing {
            self.writing = self.writing - 1;
        }
        self.in_flight = self.in_flight - 1;
        self.in_flight == 0
    }

    /// How many records have been dropped.
    pub fn dropped_total(&self) -> (dropped: u64)
        ensures
            dropped == self.dropped,
    {
        self.dropped
    }
}

/// A signal is not marked until it is, and stays so.
pub proof fn signals_are_marked_once(signal: DownstreamDropSignal)
    ensures
        !untouched_signal().dropped,
        marked_signal(signal).dropped,
        marked_signal(marked_signal(signal)) == marked_signal(signal),
{
}

/// The first loss is told at once, and the next ones after the interval.
pub proof fn losses_are_told_in_time(log: PersistenceBacklogDropLog, now_ms: u64)
    ensures
        log.last_emitted_at_ms == PERSISTENCE_BACKLOG_DROP_LOG_NEVER_EMITTED ==> report_due(
            log,
            now_ms,
        ),
        log.last_emitted_at_ms + PERSISTENCE_BACKLOG_DROP_LOG_INTERVAL_MS <= now_ms ==> report_due(
            log,
            now_ms,
        ),
{
}

} // verus!
