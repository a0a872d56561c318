//! What holds of the engine over whole runs: the laws that relate several
//! steps to one another.

use vstd::prelude::*;
use crate::applier::{request_for, Target};
use crate::engine::{
    lemma_push_keeps_pending, lemma_push_makes_pending, pending_in_log, EngineView,
};
use crate::operation::OperationView;
use crate::oplog::{
    fresh_entry, lemma_append_extends, lemma_contains_has_first, lemma_extends_transitive,
    lemma_extension_keeps_record, lemma_mark_extends, log_append, log_contains, log_extends,
    log_mark, log_position, log_status, LogEntryView, Status,
};
use crate::protocol::{CommandView, PhaseView, SyncErrorView};

verus! {

/// One call of a mutating entry point of the engine, by its arguments.
pub enum EventView {
    /// `submit`, or `execute_operation` with what it drew.
    Submit { operation: OperationView, id: Seq<char>, now: i64 },
    /// `resume_at`, or `resume` at the time it read.
    Resume { outcome: Result<(), Seq<char>>, now: i64 },
    /// `flush_queue`.
    Flush,
    /// `set_backup`.
    SetBackup { configured: bool },
    /// `handle_backup_disconnected`.
    Enqueue { operation: OperationView },
    /// `log_operation`.
    Log { operation: OperationView, id: Seq<char>, now: i64 },
}

impl EngineView {
    /// The engine after one call.
    pub open spec fn step(self, event: EventView) -> EngineView {
        match event {
            EventView::Submit { operation, id, now } => self.submit(operation, id, now).0,
            EventView::Resume { outcome, now } => self.resume(outcome, now).0,
            EventView::Flush => self.flush().0,
            EventView::SetBackup { configured } => EngineView { backup: configured, ..self },
            EventView::Enqueue { operation } => EngineView {
                queue: self.queue.push(operation),
                ..self
            },
            EventView::Log { operation, id, now } => EngineView {
                log: log_append(self.log, id, operation, now),
                ..self
            },
        }
    }

    /// The engine after a run of calls, first to last.
    pub open spec fn run(self, events: Seq<EventView>) -> EngineView
        decreases events.len(),
    {
        if events.len() == 0 {
            self
        } else {
            self.step(events[0]).run(events.skip(1))
        }
    }
}

/// No call removes or rewrites a record: whatever the engine is asked, its
/// log afterwards extends its log before.
pub proof fn lemma_step_extends_log(s: EngineView, event: EventView)
    ensures
        log_extends(s.log, s.step(event).log),
{
    match event {
        EventView::Submit { operation, id, now } => {
            lemma_append_extends(s.log, id, operation, now);
        },
        EventView::Resume { outcome, now } => {
            match s.phase {
                PhaseView::Logging { id, .. } => {
                    lemma_mark_extends(s.log, id, Status::Failed, now);
                },
                PhaseView::Primary { id, .. } => {
                    lemma_mark_extends(s.log, id, Status::Failed, now);
                    lemma_mark_extends(s.log, id, Status::Completed, now);
                },
                PhaseView::Backup { id, .. } => {
                    lemma_mark_extends(s.log, id, Status::Completed, now);
                },
                _ => {},
            }
        },
        EventView::Log { operation, id, now } => {
            lemma_append_extends(s.log, id, operation, now);
        },
        _ => {},
    }
}

/// Every call keeps the engine well-formed.
pub proof fn lemma_step_keeps_wf(s: EngineView, event: EventView)
    requires
        s.wf(),
    ensures
        s.step(event).wf(),
{
    match event {
        EventView::Submit { operation, id, now } => {
            if s.phase == PhaseView::Idle && !log_contains(s.log, id) {
                lemma_push_makes_pending(s.log, id, operation, now);
            }
        },
        EventView::Resume { outcome, now } => {
            match s.phase {
                PhaseView::Logging { id, .. } => {
                    lemma_mark_extends(s.log, id, Status::Failed, now);
                },
                PhaseView::Primary { id, .. } => {
                    lemma_mark_extends(s.log, id, Status::Failed, now);
                    lemma_mark_extends(s.log, id, Status::Completed, now);
                },
                PhaseView::Backup { id, .. } => {
                    lemma_mark_extends(s.log, id, Status::Completed, now);
                },
                _ => {},
            }
        },
        EventView::Log { operation, id, now } => {
            lemma_append_extends(s.log, id, operation, now);
            if !log_contains(s.log, id) {
                let entry = fresh_entry(id, operation, now);
                match s.phase {
                    PhaseView::Logging { id: other, operation: op } => {
                        lemma_push_keeps_pending(s.log, entry, other, op);
                    },
                    PhaseView::Primary { id: other, operation: op } => {
                        lemma_push_keeps_pending(s.log, entry, other, op);
                    },
                    PhaseView::Backup { id: other, operation: op } => {
                        lemma_push_keeps_pending(s.log, entry, other, op);
                    },
                    _ => {},
                }
            }
        },
        _ => {},
    }
}

/// Over any run of calls the log only grows and settles, and a well-formed
/// engine stays well-formed.
pub proof fn lemma_run_extends_log(s: EngineView, events: Seq<EventView>)
    ensures
        log_extends(s.log, s.run(events).log),
        s.wf() ==> s.run(events).wf(),
    decreases events.len(),
{
    if events.len() > 0 {
        let next = s.step(events[0]);
        lemma_step_extends_log(s, events[0]);
        if s.wf() {
            lemma_step_keeps_wf(s, events[0]);
        }
        lemma_run_extends_log(next, events.skip(1));
        lemma_extends_transitive(s.log, next.log, next.run(events.skip(1)).log);
    }
}

/// Once a record is marked completed, no run of calls, whatever it is made
/// of, brings it back to pending or turns it to failed. The same holds of a
/// record marked failed: a settled status is final.
pub proof fn lemma_settled_status_is_final(
    s: EngineView,
    events: Seq<EventView>,
    id: Seq<char>,
    status: Status,
)
    requires
        log_status(s.log, id) == Some(status),
        status != Status::Pending,
    ensures
        log_status(s.run(events).log, id) == Some(status),
{
    lemma_run_extends_log(s, events);
    lemma_extension_keeps_record(s.log, s.run(events).log, id);
}

/// Marking a pending record gives it the new status.
pub proof fn lemma_mark_sets_status(
    log: Seq<LogEntryView>,
    id: Seq<char>,
    status: Status,
    now: i64,
)
    requires
        log_status(log, id) == Some(Status::Pending),
    ensures
        log_status(log_mark(log, id, status, now), id) == Some(status),
{
    lemma_contains_has_first(log, id);
    lemma_mark_extends(log, id, status, now);
    lemma_extension_keeps_record(log, log_mark(log, id, status, now), id);
    assert(log_mark(log, id, status, now)[log_position(log, id)].status == status);
}

/// Marking one record neither adds nor removes an id.
pub proof fn lemma_mark_keeps_ids(
    log: Seq<LogEntryView>,
    id: Seq<char>,
    status: Status,
    now: i64,
    other: Seq<char>,
)
    ensures
        log_contains(log_mark(log, id, status, now), other) == log_contains(log, other),
{
    let marked = log_mark(log, id, status, now);
    lemma_mark_extends(log, id, status, now);
    if log_contains(log, other) {
        let i = choose|i: int| 0 <= i < log.len() && #[trigger] log[i].id == other;
        assert(marked[i].id == other);
    }
    if log_contains(marked, other) {
        let i = choose|i: int| 0 <= i < marked.len() && #[trigger] marked[i].id == other;
        assert(marked[i].id == log[i].id);
        assert(log[i].id == other);
    }
}

/// If the primary apply fails, the queue is as it was, the record is marked
/// failed, and the caller is told of the failure whatever becomes of the
/// write of that status.
pub proof fn lemma_primary_failure_fails_record(
    s: EngineView,
    id: Seq<char>,
    operation: OperationView,
    reason: Seq<char>,
    now: i64,
)
    requires
        s.wf(),
        s.phase == (PhaseView::Primary { id, operation }),
    ensures
        s.resume(Err(reason), now).0.queue == s.queue,
        log_status(s.resume(Err(reason), now).0.log, id) == Some(Status::Failed),
        s.resume(Err(reason), now).1 == (CommandView::WriteStatus {
            id,
            status: Status::Failed,
            updated_at: now,
        }),
        forall|written: Result<(), Seq<char>>, later: i64|
            (#[trigger] s.resume(Err(reason), now).0.resume(written, later)).1 == CommandView::Done(
                Err(SyncErrorView::Apply { target: Target::Primary, reason }),
            ),
{
    lemma_mark_sets_status(s.log, id, Status::Failed, now);
}

/// If the record of a submission cannot be written, nothing is applied or
/// queued, the record is marked failed, and the caller is told.
pub proof fn lemma_log_write_failure_fails_record(
    s: EngineView,
    id: Seq<char>,
    operation: OperationView,
    reason: Seq<char>,
    now: i64,
)
    requires
        s.wf(),
        s.phase == (PhaseView::Logging { id, operation }),
    ensures
        s.resume(Err(reason), now).0.queue == s.queue,
        log_status(s.resume(Err(reason), now).0.log, id) == Some(Status::Failed),
        s.resume(Err(reason), now).1 == CommandView::Done(Err(SyncErrorView::Store(reason))),
{
    lemma_mark_sets_status(s.log, id, Status::Failed, now);
}

/// No operation reaches the primary store before its record is in the log:
/// whenever the engine asks for an apply on the primary, the log holds the
/// pending record of that very operation.
pub proof fn lemma_logged_before_applied(
    s: EngineView,
    outcome: Result<(), Seq<char>>,
    now: i64,
)
    requires
        s.wf(),
        s.resume(outcome, now).1 is Apply,
        s.resume(outcome, now).1->Apply_target == Target::Primary,
    ensures
        s.phase is Logging,
        s.resume(outcome, now).0.phase == (PhaseView::Primary {
            id: s.phase->Logging_id,
            operation: s.phase->Logging_operation,
        }),
        s.resume(outcome, now).1->Apply_call == request_for(s.phase->Logging_operation),
        pending_in_log(
            s.resume(outcome, now).0.log,
            s.phase->Logging_id,
            s.phase->Logging_operation,
        ),
{
}

/// While the backup is unreachable, be it not configured or failing the
/// apply, a successful primary apply puts the operation at the tail of the
/// queue, which so grows by exactly one, and the record is completed.
pub proof fn lemma_unreachable_backup_queues(
    s: EngineView,
    id: Seq<char>,
    operation: OperationView,
    reason: Seq<char>,
    now: i64,
)
    requires
        s.wf(),
    ensures
        s.phase == (PhaseView::Primary { id, operation }) && !s.backup ==> {
            &&& s.resume(Ok(()), now).0.queue == s.queue.push(operation)
            &&& log_status(s.resume(Ok(()), now).0.log, id) == Some(Status::Completed)
        },
        s.phase == (PhaseView::Backup { id, operation }) ==> {
            &&& s.resume(Err(reason), now).0.queue == s.queue.push(operation)
            &&& log_status(s.resume(Err(reason), now).0.log, id) == Some(Status::Completed)
        },
{
    if s.phase == (PhaseView::Primary { id, operation }) || s.phase == (PhaseView::Backup {
        id,
        operation,
    }) {
        lemma_mark_sets_status(s.log, id, Status::Completed, now);
    }
}

/// A backup that takes the operation leaves the queue as it was and
/// completes the record.
pub proof fn lemma_reachable_backup_queues_nothing(
    s: EngineView,
    id: Seq<char>,
    operation: OperationView,
    now: i64,
)
    requires
        s.wf(),
        s.phase == (PhaseView::Backup { id, operation }),
    ensures
        s.resume(Ok(()), now).0.queue == s.queue,
        log_status(s.resume(Ok(()), now).0.log, id) == Some(Status::Completed),
{
    lemma_mark_sets_status(s.log, id, Status::Completed, now);
}

/// A flush of an empty queue succeeds at once, changes nothing and asks
/// for no work on any store.
pub proof fn lemma_flush_of_empty_queue(s: EngineView)
    requires
        s.phase == PhaseView::Idle,
        s.queue.len() == 0,
    ensures
        s.flush() == (s, CommandView::Done(Ok(()))),
        !s.flush().1.touches_store(),
{
}

/// One whole submission: what was submitted and how the two stores fared.
/// `backup` is read only where the backup store is asked.
pub struct SubmissionView {
    pub operation: OperationView,
    pub id: Seq<char>,
    pub now: i64,
    pub primary: Result<(), Seq<char>>,
    pub backup: Result<(), Seq<char>>,
}

impl SubmissionView {
    /// Whether the operation reached the primary and found no backup to
    /// take it.
    pub open spec fn left_for_later(self, configured: bool) -> bool {
        self.primary is Ok && (!configured || self.backup is Err)
    }
}

impl EngineView {
    /// The engine after one submission has run from `submit` to `Done`,
    /// the writes of the record and of its status having succeeded.
    pub open spec fn submitted(self, sub: SubmissionView) -> EngineView {
        let logged = self.submit(sub.operation, sub.id, sub.now).0.resume(Ok(()), sub.now).0;
        let applied = logged.resume(sub.primary, sub.now).0;
        let decided = if applied.phase is Backup {
            applied.resume(sub.backup, sub.now).0
        } else {
            applied
        };
        decided.resume(Ok(()), sub.now).0
    }

    /// The engine after a run of submissions, first to last.
    pub open spec fn submitted_all(self, subs: Seq<SubmissionView>) -> EngineView
        decreases subs.len(),
    {
        if subs.len() == 0 {
            self
        } else {
            self.submitted(subs[0]).submitted_all(subs.skip(1))
        }
    }
}

/// What one submission under a fresh id leaves behind. The record is
/// completed exactly where the primary apply succeeded, failed otherwise.
/// The queue gains the operation, at its tail, exactly where the primary
/// succeeded and the backup did not take it; in every other case it is
/// unchanged. The engine is idle again, and no other id entered the log.
pub proof fn lemma_submission(s: EngineView, sub: SubmissionView)
    requires
        s.wf(),
        s.phase == PhaseView::Idle,
        !log_contains(s.log, sub.id),
    ensures
        s.submitted(sub).wf(),
        s.submitted(sub).phase == PhaseView::Idle,
        s.submitted(sub).backup == s.backup,
        s.submitted(sub).queue == if sub.left_for_later(s.backup) {
            s.queue.push(sub.operation)
        } else {
            s.queue
        },
        log_status(s.submitted(sub).log, sub.id) == Some(
            if sub.primary is Ok {
                Status::Completed
            } else {
                Status::Failed
            },
        ),
        forall|other: Seq<char>|
            other != sub.id ==> #[trigger] log_contains(s.submitted(sub).log, other)
                == log_contains(s.log, other),
{
    let status = if sub.primary is Ok {
        Status::Completed
    } else {
        Status::Failed
    };
    let pushed = s.log.push(fresh_entry(sub.id, sub.operation, sub.now));
    lemma_push_makes_pending(s.log, sub.id, sub.operation, sub.now);
    lemma_mark_sets_status(pushed, sub.id, status, sub.now);
    lemma_mark_extends(pushed, sub.id, status, sub.now);
    assert(s.submitted(sub).log == log_mark(pushed, sub.id, status, sub.now));
    assert forall|other: Seq<char>| other != sub.id implies #[trigger] log_contains(
        s.submitted(sub).log,
        other,
    ) == log_contains(s.log, other) by {
        lemma_mark_keeps_ids(pushed, sub.id, status, sub.now, other);
        if log_contains(s.log, other) {
            let i = choose|i: int| 0 <= i < s.log.len() && #[trigger] s.log[i].id == other;
            assert(pushed[i].id == other);
        }
        if log_contains(pushed, other) {
            let i = choose|i: int| 0 <= i < pushed.len() && #[trigger] pushed[i].id == other;
            assert(i < s.log.len());
            assert(s.log[i].id == other);
        }
    }
}

/// While the backup is unreachable, be it not configured or failing each
/// apply, every submission that the primary takes adds exactly one
/// operation to the queue, and the queue holds them in the order of
/// submission, behind what it held before.
pub proof fn lemma_unreachable_backup_queues_in_order(s: EngineView, subs: Seq<SubmissionView>)
    requires
        s.wf(),
        s.phase == PhaseView::Idle,
        forall|i: int| 0 <= i < subs.len() ==> !log_contains(s.log, (#[trigger] subs[i]).id),
        forall|i: int, j: int|
            0 <= i < j < subs.len() ==> (#[trigger] subs[i]).id != (#[trigger] subs[j]).id,
        forall|i: int| 0 <= i < subs.len() ==> (#[trigger] subs[i]).left_for_later(s.backup),
    ensures
        s.submitted_all(subs).queue == s.queue + subs.map_values(
            |sub: SubmissionView| sub.operation,
        ),
        s.submitted_all(subs).queue.len() == s.queue.len() + subs.len(),
        s.submitted_all(subs).phase == PhaseView::Idle,
        s.submitted_all(subs).backup == s.backup,
        s.submitted_all(subs).wf(),
    decreases subs.len(),
{
    let operations = subs.map_values(|sub: SubmissionView| sub.operation);
    if subs.len() == 0 {
        assert(s.queue + operations =~= s.queue);
    } else {
        let next = s.submitted(subs[0]);
        let rest = subs.skip(1);
        lemma_submission(s, subs[0]);
        assert forall|i: int| 0 <= i < rest.len() implies !log_contains(
            next.log,
            (#[trigger] rest[i]).id,
        ) by {
            assert(rest[i] == subs[i + 1]);
            assert(subs[0].id != subs[i + 1].id);
            assert(log_contains(next.log, rest[i].id) == log_contains(s.log, rest[i].id));
        }
        assert forall|i: int, j: int| 0 <= i < j < rest.len() implies (#[trigger] rest[i]).id != (
        #[trigger] rest[j]).id by {
            assert(rest[i] == subs[i + 1]);
            assert(rest[j] == subs[j + 1]);
        }
        assert forall|i: int| 0 <= i < rest.len() implies (#[trigger] rest[i]).left_for_later(
            next.backup,
        ) by {
            assert(rest[i] == subs[i + 1]);
        }
        lemma_unreachable_backup_queues_in_order(next, rest);
        assert(s.queue.push(subs[0].operation) + rest.map_values(
            |sub: SubmissionView| sub.operation,
        ) =~= s.queue + operations);
    }
}

/// The command that has an operation applied to the backup store.
pub open spec fn backup_apply(operation: OperationView) -> CommandView {
    CommandView::Apply { target: Target::Backup, call: request_for(operation) }
}

/// The backup applies for a run of operations, in their order.
pub open spec fn backup_applies(operations: Seq<OperationView>) -> Seq<CommandView> {
    operations.map_values(|operation: OperationView| backup_apply(operation))
}

impl EngineView {
    /// A flush under way: the outcomes of its commands are reported one by
    /// one. The result is the engine afterwards and the commands it
    /// answered with, in order. Reports that come once the flush is over
    /// are left unread.
    pub open spec fn flushing(self, outcomes: Seq<Result<(), Seq<char>>>) -> (
        EngineView,
        Seq<CommandView>,
    )
        decreases outcomes.len(),
    {
        if outcomes.len() == 0 || self.phase != PhaseView::Flushing {
            (self, Seq::<CommandView>::empty())
        } else {
            let answered = self.resume(outcomes[0], 0);
            let later = answered.0.flushing(outcomes.skip(1));
            (later.0, seq![answered.1] + later.1)
        }
    }

    /// A whole flush, from `flush_queue` on: the engine afterwards and
    /// every command it gave, in order.
    pub open spec fn flush_run(self, outcomes: Seq<Result<(), Seq<char>>>) -> (
        EngineView,
        Seq<CommandView>,
    ) {
        let started = self.flush();
        let later = started.0.flushing(outcomes);
        (later.0, seq![started.1] + later.1)
    }
}

/// A flush under way whose next `k` applies succeed and whose apply after
/// those fails: it stops there. The commands answered are the applies of
/// the operations behind the head, up to the one that failed, in queue
/// order, and then the failure; the queue is left with the failed
/// operation at its head and all behind it in their order.
proof fn lemma_flushing_stops_at_failure(
    s: EngineView,
    outcomes: Seq<Result<(), Seq<char>>>,
    k: int,
    reason: Seq<char>,
)
    requires
        s.phase == PhaseView::Flushing,
        0 <= k < s.queue.len(),
        outcomes.len() == k + 1,
        forall|i: int| 0 <= i < k ==> (#[trigger] outcomes[i]) is Ok,
        outcomes[k] == Err::<(), Seq<char>>(reason),
    ensures
        s.flushing(outcomes).0 == (EngineView {
            queue: s.queue.skip(k),
            phase: PhaseView::Idle,
            ..s
        }),
        s.flushing(outcomes).1 == backup_applies(s.queue.subrange(1, k + 1)).push(
            CommandView::Done(Err(SyncErrorView::Apply { target: Target::Backup, reason })),
        ),
    decreases k,
{
    let failure = CommandView::Done(Err(SyncErrorView::Apply { target: Target::Backup, reason }));
    let answered = s.resume(outcomes[0], 0);
    let rest = outcomes.skip(1);
    if k == 0 {
        assert(answered.0.flushing(rest).1 =~= Seq::<CommandView>::empty());
        assert(s.queue.skip(0) =~= s.queue);
        assert(seq![answered.1] + answered.0.flushing(rest).1 =~= backup_applies(
            s.queue.subrange(1, 1),
        ).push(failure));
    } else {
        assert(outcomes[0] is Ok);
        let next = answered.0;
        assert(next.queue == s.queue.skip(1));
        assert(next.phase == PhaseView::Flushing);
        assert forall|i: int| 0 <= i < k - 1 implies (#[trigger] rest[i]) is Ok by {
            assert(rest[i] == outcomes[i + 1]);
        }
        assert(rest[k - 1] == outcomes[k]);
        lemma_flushing_stops_at_failure(next, rest, k - 1, reason);
        assert(next.queue.skip(k - 1) =~= s.queue.skip(k));
        assert(answered.1 == backup_apply(s.queue[1]));
        assert(next.queue.subrange(1, k) =~= s.queue.subrange(2, k + 1));
        assert(seq![answered.1] + backup_applies(s.queue.subrange(2, k + 1)).push(failure)
            =~= backup_applies(s.queue.subrange(1, k + 1)).push(failure));
    }
}

/// A flush under way whose every apply succeeds empties the queue. The
/// commands answered are the applies of the operations behind the head, in
/// queue order, and then success.
proof fn lemma_flushing_drains(s: EngineView, outcomes: Seq<Result<(), Seq<char>>>)
    requires
        s.phase == PhaseView::Flushing,
        s.queue.len() > 0,
        outcomes.len() == s.queue.len(),
        forall|i: int| 0 <= i < outcomes.len() ==> (#[trigger] outcomes[i]) is Ok,
    ensures
        s.flushing(outcomes).0 == (EngineView {
            queue: Seq::<OperationView>::empty(),
            phase: PhaseView::Idle,
            ..s
        }),
        s.flushing(outcomes).1 == backup_applies(s.queue.skip(1)).push(CommandView::Done(Ok(()))),
    decreases s.queue.len(),
{
    let success = CommandView::Done(Ok(()));
    let answered = s.resume(outcomes[0], 0);
    let rest = outcomes.skip(1);
    assert(outcomes[0] is Ok);
    let next = answered.0;
    assert(next.queue == s.queue.skip(1));
    if s.queue.len() == 1 {
        assert(next.queue =~= Seq::<OperationView>::empty());
        assert(next.flushing(rest).1 =~= Seq::<CommandView>::empty());
        assert(seq![answered.1] + next.flushing(rest).1 =~= backup_applies(s.queue.skip(1)).push(
            success,
        ));
    } else {
        assert forall|i: int| 0 <= i < rest.len() implies (#[trigger] rest[i]) is Ok by {
            assert(rest[i] == outcomes[i + 1]);
        }
        lemma_flushing_drains(next, rest);
        assert(answered.1 == backup_apply(s.queue[1]));
        assert(next.queue.skip(1) =~= s.queue.skip(2));
        assert(seq![answered.1] + backup_applies(s.queue.skip(2)).push(success)
            =~= backup_applies(s.queue.skip(1)).push(success));
    }
}

/// A flush whose every apply succeeds hands the queued operations to the
/// backup in the order in which they were queued, each before the next,
/// and leaves the queue empty; nothing else about the engine changes.
pub proof fn lemma_flush_applies_in_queue_order(
    s: EngineView,
    outcomes: Seq<Result<(), Seq<char>>>,
)
    requires
        s.phase == PhaseView::Idle,
        s.backup,
        outcomes.len() == s.queue.len(),
        forall|i: int| 0 <= i < outcomes.len() ==> (#[trigger] outcomes[i]) is Ok,
    ensures
        s.flush_run(outcomes).0 == (EngineView { queue: Seq::<OperationView>::empty(), ..s }),
        s.flush_run(outcomes).1 == backup_applies(s.queue).push(CommandView::Done(Ok(()))),
{
    let success = CommandView::Done(Ok(()));
    if s.queue.len() == 0 {
        assert(s.queue =~= Seq::<OperationView>::empty());
        assert(seq![s.flush().1] + s.flush().0.flushing(outcomes).1 =~= backup_applies(
            s.queue,
        ).push(success));
    } else {
        lemma_flushing_drains(s.flush().0, outcomes);
        assert(seq![s.flush().1] + backup_applies(s.queue.skip(1)).push(success)
            =~= backup_applies(s.queue).push(success));
    }
}

/// A flush stops at the first apply that fails. Up to there the queued
/// operations went to the backup in queue order; the one that failed and
/// all behind it stay queued in their order, none skipped and none
/// dropped; nothing else about the engine changes. With the failure at the
/// head, the queue after the flush is the queue before it.
pub proof fn lemma_flush_stops_at_first_failure(
    s: EngineView,
    outcomes: Seq<Result<(), Seq<char>>>,
    k: int,
    reason: Seq<char>,
)
    requires
        s.phase == PhaseView::Idle,
        s.backup,
        0 <= k < s.queue.len(),
        outcomes.len() == k + 1,
        forall|i: int| 0 <= i < k ==> (#[trigger] outcomes[i]) is Ok,
        outcomes[k] == Err::<(), Seq<char>>(reason),
    ensures
        s.flush_run(outcomes).0 == (EngineView { queue: s.queue.skip(k), ..s }),
        s.flush_run(outcomes).1 == backup_applies(s.queue.take(k + 1)).push(
            CommandView::Done(Err(SyncErrorView::Apply { target: Target::Backup, reason })),
        ),
        k == 0 ==> s.flush_run(outcomes).0 == s,
{
    let failure = CommandView::Done(Err(SyncErrorView::Apply { target: Target::Backup, reason }));
    lemma_flushing_stops_at_failure(s.flush().0, outcomes, k, reason);
    assert(seq![s.flush().1] + backup_applies(s.queue.subrange(1, k + 1)).push(failure)
        =~= backup_applies(s.queue.take(k + 1)).push(failure));
    assert(s.queue.skip(0) =~= s.queue);
}

/// A flush without a backup store does not start where anything is queued:
/// the queue stays as it is and the caller is told.
pub proof fn lemma_flush_without_backup(s: EngineView)
    requires
        s.phase == PhaseView::Idle,
        !s.backup,
        s.queue.len() > 0,
    ensures
        s.flush() == (s, CommandView::Done(Err(SyncErrorView::Config))),
{
}

/// Operations submitted while the backup is unreachable reach it, once it is
/// configured and a flush goes through, in the order of their submission:
/// what was queued before them first, then each of them before the next.
/// The queue is empty afterwards.
pub proof fn lemma_replay_follows_submission_order(
    s: EngineView,
    subs: Seq<SubmissionView>,
    outcomes: Seq<Result<(), Seq<char>>>,
)
    requires
        s.wf(),
        s.phase == PhaseView::Idle,
        forall|i: int| 0 <= i < subs.len() ==> !log_contains(s.log, (#[trigger] subs[i]).id),
        forall|i: int, j: int|
            0 <= i < j < subs.len() ==> (#[trigger] subs[i]).id != (#[trigger] subs[j]).id,
        forall|i: int| 0 <= i < subs.len() ==> (#[trigger] subs[i]).left_for_later(s.backup),
        outcomes.len() == s.queue.len() + subs.len(),
        forall|i: int| 0 <= i < outcomes.len() ==> (#[trigger] outcomes[i]) is Ok,
    ensures
        s.submitted_all(subs).step(EventView::SetBackup { configured: true }).flush_run(
            outcomes,
        ).1 == backup_applies(
            s.queue + subs.map_values(|sub: SubmissionView| sub.operation),
        ).push(CommandView::Done(Ok(()))),
        s.submitted_all(subs).step(EventView::SetBackup { configured: true }).flush_run(
            outcomes,
        ).0.queue.len() == 0,
{
    lemma_unreachable_backup_queues_in_order(s, subs);
    let restored = s.submitted_all(subs).step(EventView::SetBackup { configured: true });
    lemma_flush_applies_in_queue_order(restored, outcomes);
}

} // verus!
