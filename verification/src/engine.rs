//! The sync engine: it logs each submitted operation, has it applied to the
//! primary store, has it applied to the backup store or queues it for later,
//! and drains that queue in order when asked to flush.

use std::collections::VecDeque;
use vstd::prelude::*;
use crate::applier::{plan, request_for, Target};
use crate::operation::{operations_view, Operation, OperationView};
use crate::oplog::{
    fresh_entry, ids_unique, lemma_contains_has_first, lemma_first_is_position, log_contains,
    log_extends, log_mark, log_position, LogEntry, LogEntryView, OperationLog, Status,
};
use crate::protocol::{
    outcome_view, Command, CommandView, Outcome, Phase, PhaseView, SyncError, SyncErrorView,
};
use crate::sources::{fresh_operation_id, now_millis};

verus! {

/// Whether the log holds a pending record of `operation` under `id`.
pub open spec fn pending_in_log(
    log: Seq<LogEntryView>,
    id: Seq<char>,
    operation: OperationView,
) -> bool {
    &&& log_contains(log, id)
    &&& log[log_position(log, id)].status == Status::Pending
    &&& log[log_position(log, id)].operation == operation
}

/// Mathematical value of a [`SyncEngine`]: the log, the retry queue in
/// queue order, whether a backup store is configured, and the phase.
pub struct EngineView {
    pub log: Seq<LogEntryView>,
    pub queue: Seq<OperationView>,
    pub backup: bool,
    pub phase: PhaseView,
}

impl EngineView {
    /// The engine as it starts: nothing logged, nothing queued, idle.
    pub open spec fn initial(backup: bool) -> EngineView {
        EngineView {
            log: Seq::<LogEntryView>::empty(),
            queue: Seq::<OperationView>::empty(),
            backup,
            phase: PhaseView::Idle,
        }
    }

    /// What holds of every engine that was reached from `initial` by the
    /// transitions below: no two records share an id; the operation in
    /// progress has its pending record; a flush in progress has a head to
    /// work on.
    pub open spec fn wf(self) -> bool {
        &&& ids_unique(self.log)
        &&& match self.phase {
            PhaseView::Logging { id, operation } => pending_in_log(self.log, id, operation),
            PhaseView::Primary { id, operation } => pending_in_log(self.log, id, operation),
            PhaseView::Backup { id, operation } => pending_in_log(self.log, id, operation),
            PhaseView::Flushing => self.queue.len() > 0,
            _ => true,
        }
    }

    /// A submission: the operation is logged as pending before anything
    /// else happens to it, and the first command is to write that record.
    /// Refused, with the engine unchanged, while something else is in
    /// progress or where the id is taken.
    pub open spec fn submit(self, operation: OperationView, id: Seq<char>, now: i64) -> (
        EngineView,
        CommandView,
    ) {
        if self.phase != PhaseView::Idle {
            (self, CommandView::Done(Err(SyncErrorView::Busy)))
        } else if log_contains(self.log, id) {
            (self, CommandView::Done(Err(SyncErrorView::DuplicateId)))
        } else {
            (
                EngineView {
                    log: self.log.push(fresh_entry(id, operation, now)),
                    phase: PhaseView::Logging { id, operation },
                    ..self
                },
                CommandView::WriteLog(fresh_entry(id, operation, now)),
            )
        }
    }

    /// The record of `id` gets its final status, the operation joins the
    /// tail of the retry queue where `queued` says so, and the next command
    /// is to write that status; `result` is kept for the caller.
    pub open spec fn settle(
        self,
        id: Seq<char>,
        status: Status,
        now: i64,
        queued: Option<OperationView>,
        result: Result<(), SyncErrorView>,
    ) -> (EngineView, CommandView) {
        (
            EngineView {
                log: log_mark(self.log, id, status, now),
                queue: match queued {
                    Some(operation) => self.queue.push(operation),
                    None => self.queue,
                },
                phase: PhaseView::Marking { result },
                ..self
            },
            CommandView::WriteStatus { id, status, updated_at: now },
        )
    }

    /// What follows the outcome of applying the operation to `target`.
    /// A failure on the primary marks the record failed and leaves the
    /// queue alone. A success on the primary goes on to the backup, or,
    /// where none is configured, queues the operation and completes the
    /// record. Whatever the backup answers, the record is completed; a
    /// failure there queues the operation.
    pub open spec fn applied(
        self,
        id: Seq<char>,
        operation: OperationView,
        target: Target,
        outcome: Result<(), Seq<char>>,
        now: i64,
    ) -> (EngineView, CommandView) {
        match (target, outcome) {
            (Target::Primary, Err(reason)) => self.settle(
                id,
                Status::Failed,
                now,
                None,
                Err(SyncErrorView::Apply { target: Target::Primary, reason }),
            ),
            (Target::Primary, Ok(())) => if self.backup {
                (
                    EngineView { phase: PhaseView::Backup { id, operation }, ..self },
                    CommandView::Apply { target: Target::Backup, call: request_for(operation) },
                )
            } else {
                self.settle(id, Status::Completed, now, Some(operation), Ok(()))
            },
            (Target::Backup, Ok(())) => self.settle(id, Status::Completed, now, None, Ok(())),
            (Target::Backup, Err(_)) => self.settle(
                id,
                Status::Completed,
                now,
                Some(operation),
                Ok(()),
            ),
        }
    }

    /// What follows the outcome of applying the head of the queue to the
    /// backup during a flush. A success removes the head and goes on to the
    /// next operation, or ends the flush where none is left. A failure ends
    /// the flush at once and leaves the queue as it is.
    pub open spec fn flushed(self, outcome: Result<(), Seq<char>>) -> (EngineView, CommandView) {
        match outcome {
            Err(reason) => (
                EngineView { phase: PhaseView::Idle, ..self },
                CommandView::Done(Err(SyncErrorView::Apply { target: Target::Backup, reason })),
            ),
            Ok(()) => {
                let rest = if self.queue.len() > 0 {
                    self.queue.skip(1)
                } else {
                    self.queue
                };
                if rest.len() > 0 {
                    (
                        EngineView { queue: rest, phase: PhaseView::Flushing, ..self },
                        CommandView::Apply { target: Target::Backup, call: request_for(rest[0]) },
                    )
                } else {
                    (
                        EngineView { queue: rest, phase: PhaseView::Idle, ..self },
                        CommandView::Done(Ok(())),
                    )
                }
            },
        }
    }

    /// What follows the outcome of the last command, phase by phase.
    ///
    /// * Idle: nothing was asked for; the report is refused.
    /// * Logging: once the record is written the operation goes to the
    ///   primary; a record that could not be written is marked failed and
    ///   the submission ends with a store error, nothing applied or queued.
    /// * Primary, Backup: see [`EngineView::applied`].
    /// * Marking: the call ends. The caller is told what the primary apply
    ///   decided; where that was success and the status could not be
    ///   written, the caller is told of the store error, and the record and
    ///   the queue stay as the engine has them.
    /// * Flushing: see [`EngineView::flushed`].
    pub open spec fn resume(self, outcome: Result<(), Seq<char>>, now: i64) -> (
        EngineView,
        CommandView,
    ) {
        match self.phase {
            PhaseView::Idle => (self, CommandView::Done(Err(SyncErrorView::Idle))),
            PhaseView::Logging { id, operation } => match outcome {
                Ok(()) => (
                    EngineView { phase: PhaseView::Primary { id, operation }, ..self },
                    CommandView::Apply { target: Target::Primary, call: request_for(operation) },
                ),
                Err(reason) => (
                    EngineView {
                        log: log_mark(self.log, id, Status::Failed, now),
                        phase: PhaseView::Idle,
                        ..self
                    },
                    CommandView::Done(Err(SyncErrorView::Store(reason))),
                ),
            },
            PhaseView::Primary { id, operation } => self.applied(
                id,
                operation,
                Target::Primary,
                outcome,
                now,
            ),
            PhaseView::Backup { id, operation } => self.applied(
                id,
                operation,
                Target::Backup,
                outcome,
                now,
            ),
            PhaseView::Marking { result } => (
                EngineView { phase: PhaseView::Idle, ..self },
                CommandView::Done(
                    match (result, outcome) {
                        (Err(e), _) => Err(e),
                        (Ok(()), Err(reason)) => Err(SyncErrorView::Store(reason)),
                        (Ok(()), Ok(())) => Ok(()),
                    },
                ),
            ),
            PhaseView::Flushing => self.flushed(outcome),
        }
    }

    /// The start of a flush. An empty queue is flushed at once, without a
    /// command that touches a store. A queue that is not empty needs a
    /// backup store: its head is the first to be applied there.
    pub open spec fn flush(self) -> (EngineView, CommandView) {
        if self.phase != PhaseView::Idle {
            (self, CommandView::Done(Err(SyncErrorView::Busy)))
        } else if self.queue.len() == 0 {
            (self, CommandView::Done(Ok(())))
        } else if !self.backup {
            (self, CommandView::Done(Err(SyncErrorView::Config)))
        } else {
            (
                EngineView { phase: PhaseView::Flushing, ..self },
                CommandView::Apply { target: Target::Backup, call: request_for(self.queue[0]) },
            )
        }
    }
}

/// Appending a record under an id that the log lacks gives that id a
/// pending record and keeps the ids apart.
pub proof fn lemma_push_makes_pending(
    log: Seq<LogEntryView>,
    id: Seq<char>,
    operation: OperationView,
    now: i64,
)
    requires
        !log_contains(log, id),
    ensures
        pending_in_log(log.push(fresh_entry(id, operation, now)), id, operation),
        ids_unique(log) ==> ids_unique(log.push(fresh_entry(id, operation, now))),
{
    let longer = log.push(fresh_entry(id, operation, now));
    assert forall|j: int| 0 <= j < log.len() implies (#[trigger] longer[j]).id != id by {
        assert(longer[j] == log[j]);
    }
    lemma_first_is_position(longer, id, log.len() as int);
    if ids_unique(log) {
        assert forall|i: int, j: int|
            0 <= i < longer.len() && 0 <= j < longer.len() && (#[trigger] longer[i]).id == (
            #[trigger] longer[j]).id implies i == j by {
            if i < log.len() {
                assert(longer[i] == log[i]);
            }
            if j < log.len() {
                assert(longer[j] == log[j]);
            }
        }
    }
}

/// Appending a record leaves the pending record of another id where it is.
pub proof fn lemma_push_keeps_pending(
    log: Seq<LogEntryView>,
    entry: LogEntryView,
    id: Seq<char>,
    operation: OperationView,
)
    requires
        pending_in_log(log, id, operation),
    ensures
        pending_in_log(log.push(entry), id, operation),
{
    lemma_contains_has_first(log, id);
    let at = log_position(log, id);
    let longer = log.push(entry);
    assert(longer[at] == log[at]);
    assert forall|j: int| 0 <= j < at implies (#[trigger] longer[j]).id != id by {
        assert(longer[j] == log[j]);
    }
    lemma_first_is_position(longer, id, at);
}

/// The sync engine. `S` is the handle of a store; the engine keeps the
/// handles for its driver and never looks inside one.
pub struct SyncEngine<S> {
    primary_db: S,
    backup_db: Option<S>,
    operation_queue: VecDeque<Operation>,
    log: OperationLog,
    phase: Phase,
}

impl<S> View for SyncEngine<S> {
    type V = EngineView;

    closed spec fn view(&self) -> EngineView {
        EngineView {
            log: self.log@,
            queue: operations_view(self.operation_queue@),
            backup: self.backup_db is Some,
            phase: self.phase@,
        }
    }
}

impl<S> SyncEngine<S> {
    /// The handle of the primary store.
    pub closed spec fn primary(&self) -> S {
        self.primary_db
    }

    /// The handle of the backup store, where one is configured.
    pub closed spec fn backup(&self) -> Option<S> {
        self.backup_db
    }

    /// An idle engine over the two stores, with nothing logged or queued.
    pub fn new(primary_db: S, backup_db: Option<S>) -> (engine: Self)
        ensures
            engine@ == EngineView::initial(backup_db is Some),
            engine@.wf(),
            engine.primary() == primary_db,
            engine.backup() == backup_db,
    {
        let engine = SyncEngine {
            primary_db,
            backup_db,
            operation_queue: VecDeque::new(),
            log: OperationLog::new(),
            phase: Phase::Idle,
        };
        assert(engine@.queue =~= Seq::<OperationView>::empty());
        engine
    }

    /// The primary store's handle.
    pub fn primary_db(&self) -> (db: &S)
        ensures
            *db == self.primary(),
    {
        &self.primary_db
    }

    /// The backup store's handle, where one is configured.
    pub fn backup_db(&self) -> (db: Option<&S>)
        ensures
            (db is Some) == self@.backup,
            (db is Some) == (self.backup() is Some),
            db is Some ==> *db->0 == self.backup()->0,
    {
        self.backup_db.as_ref()
    }

    /// Configures the backup store, or takes it away. The log, the queue
    /// and the phase stay as they are.
    pub fn set_backup(&mut self, backup_db: Option<S>)
        ensures
            final(self)@ == (EngineView { backup: backup_db is Some, ..old(self)@ }),
            final(self).backup() == backup_db,
            final(self).primary() == old(self).primary(),
            old(self)@.wf() ==> final(self)@.wf(),
    {
        self.backup_db = backup_db;
    }

    /// The retry queue, head first.
    pub fn queue(&self) -> (queue: &VecDeque<Operation>)
        ensures
            operations_view(queue@) == self@.queue,
    {
        &self.operation_queue
    }

    /// The operation log.
    pub fn log(&self) -> (log: &OperationLog)
        ensures
            log@ == self@.log,
    {
        &self.log
    }

    /// The phase that the engine is in.
    pub fn phase(&self) -> (phase: &Phase)
        ensures
            phase@ == self@.phase,
    {
        &self.phase
    }

    /// Writes the pending record of `operation` under `id` into the log and
    /// returns it. An id that the log already has is refused, and nothing
    /// changes.
    pub fn log_operation(&mut self, operation: &Operation, id: String, now: i64) -> (result:
        Result<LogEntry, SyncError>)
        ensures
            match result {
                Ok(entry) => {
                    &&& !log_contains(old(self)@.log, id@)
                    &&& entry@ == fresh_entry(id@, operation@, now)
                    &&& final(self)@ == (EngineView {
                        log: old(self)@.log.push(entry@),
                        ..old(self)@
                    })
                },
                Err(e) => {
                    &&& log_contains(old(self)@.log, id@)
                    &&& e@ == SyncErrorView::DuplicateId
                    &&& final(self)@ == old(self)@
                },
            },
            final(self).primary() == old(self).primary(),
            final(self).backup() == old(self).backup(),
            log_extends(old(self)@.log, final(self)@.log),
            old(self)@.wf() ==> final(self)@.wf(),
    {
        let entry = LogEntry {
            id: id.clone(),
            operation: operation.clone(),
            status: Status::Pending,
            created_at: now,
            updated_at: now,
        };
        match self.log.append(id, operation.clone(), now) {
            Ok(()) => {
                proof {
                    if old(self)@.wf() {
                        match old(self)@.phase {
                            PhaseView::Logging { id: other, operation: op } => {
                                lemma_push_keeps_pending(old(self)@.log, entry@, other, op);
                            },
                            PhaseView::Primary { id: other, operation: op } => {
                                lemma_push_keeps_pending(old(self)@.log, entry@, other, op);
                            },
                            PhaseView::Backup { id: other, operation: op } => {
                                lemma_push_keeps_pending(old(self)@.log, entry@, other, op);
                            },
                            _ => {},
                        }
                    }
                }
                Ok(entry)
            },
            Err(_) => Err(SyncError::DuplicateId),
        }
    }

    /// Puts an operation whose backup replication is still owed at the tail
    /// of the retry queue.
    pub fn handle_backup_disconnected(&mut self, operation: Operation)
        ensures
            final(self)@ == (EngineView {
                queue: old(self)@.queue.push(operation@),
                ..old(self)@
            }),
            final(self).primary() == old(self).primary(),
            final(self).backup() == old(self).backup(),
            old(self)@.wf() ==> final(self)@.wf(),
    {
        self.operation_queue.push_back(operation);
        assert(operations_view(self.operation_queue@) =~= operations_view(
            old(self).operation_queue@,
        ).push(operation@));
    }

    /// The command that has an operation applied to the primary store.
    fn execute_on_primary(operation: &Operation) -> (command: Command)
        ensures
            command@ == (CommandView::Apply {
                target: Target::Primary,
                call: request_for(operation@),
            }),
    {
        Command::Apply { target: Target::Primary, call: plan(operation) }
    }

    /// The command that has an operation applied to the backup store.
    fn execute_on_backup(operation: &Operation) -> (command: Command)
        ensures
            command@ == (CommandView::Apply {
                target: Target::Backup,
                call: request_for(operation@),
            }),
    {
        Command::Apply { target: Target::Backup, call: plan(operation) }
    }

    /// Gives the record of `id` its final status, queues the operation where
    /// one is handed in, and asks for the status to be written.
    fn settle(
        &mut self,
        id: String,
        status: Status,
        now: i64,
        queued: Option<Operation>,
        result: Result<(), SyncError>,
    ) -> (command: Command)
        ensures
            (final(self)@, command@) == old(self)@.settle(
                id@,
                status,
                now,
                match queued {
                    Some(operation) => Some(operation@),
                    None => None,
                },
                crate::protocol::result_view(result),
            ),
            final(self).primary() == old(self).primary(),
            final(self).backup() == old(self).backup(),
            log_extends(old(self)@.log, final(self)@.log),
            ids_unique(old(self)@.log) ==> final(self)@.wf(),
    {
        let _ = self.log.mark(&id, status, now);
        match queued {
            Some(operation) => {
                self.operation_queue.push_back(operation);
                assert(operations_view(self.operation_queue@) =~= operations_view(
                    old(self).operation_queue@,
                ).push(operation@));
            },
            None => {},
        }
        self.phase = Phase::Marking { result };
        Command::WriteStatus { id, status, updated_at: now }
    }

    /// Decides what follows the outcome of applying `operation` to
    /// `target`: the dual write, one store after the other.
    fn execute_on_both(
        &mut self,
        id: String,
        operation: Operation,
        target: Target,
        outcome: Outcome,
        now: i64,
    ) -> (command: Command)
        ensures
            (final(self)@, command@) == old(self)@.applied(
                id@,
                operation@,
                target,
                outcome_view(outcome),
                now,
            ),
            final(self).primary() == old(self).primary(),
            final(self).backup() == old(self).backup(),
            log_extends(old(self)@.log, final(self)@.log),
            ids_unique(old(self)@.log) && pending_in_log(old(self)@.log, id@, operation@)
                ==> final(self)@.wf(),
    {
        match target {
            Target::Primary => match outcome {
                Err(reason) => self.settle(
                    id,
                    Status::Failed,
                    now,
                    None,
                    Err(SyncError::Apply { target: Target::Primary, reason }),
                ),
                Ok(()) => {
                    if self.backup_db.is_some() {
                        let command = Self::execute_on_backup(&operation);
                        self.phase = Phase::Backup { id, operation };
                        command
                    } else {
                        self.settle(id, Status::Completed, now, Some(operation), Ok(()))
                    }
                },
            },
            Target::Backup => match outcome {
                Ok(()) => self.settle(id, Status::Completed, now, None, Ok(())),
                Err(_) => self.settle(id, Status::Completed, now, Some(operation), Ok(())),
            },
        }
    }

    /// Decides what follows the outcome of applying the head of the queue
    /// to the backup store during a flush.
    fn flush_next(&mut self, outcome: Outcome) -> (command: Command)
        ensures
            (final(self)@, command@) == old(self)@.flushed(outcome_view(outcome)),
            final(self).primary() == old(self).primary(),
            final(self).backup() == old(self).backup(),
            final(self)@.log == old(self)@.log,
            ids_unique(old(self)@.log) ==> final(self)@.wf(),
    {
        match outcome {
            Err(reason) => {
                self.phase = Phase::Idle;
                Command::Done(Err(SyncError::Apply { target: Target::Backup, reason }))
            },
            Ok(()) => {
                let _ = self.operation_queue.pop_front();
                assert(operations_view(self.operation_queue@) =~= if old(self)@.queue.len() > 0 {
                    old(self)@.queue.skip(1)
                } else {
                    old(self)@.queue
                });
                if self.operation_queue.len() > 0 {
                    self.phase = Phase::Flushing;
                    Self::execute_on_backup(&self.operation_queue[0])
                } else {
                    self.phase = Phase::Idle;
                    Command::Done(Ok(()))
                }
            },
        }
    }

    /// Submits an operation under the identifier `id` at the time `now`.
    /// The operation is logged as pending before anything is applied; the
    /// command returned asks for that record to be written. The submission
    /// is refused, and nothing changes, while an earlier submission or a
    /// flush is in progress, or where the log already has `id`.
    pub fn submit(&mut self, operation: Operation, id: String, now: i64) -> (command: Command)
        ensures
            (final(self)@, command@) == old(self)@.submit(operation@, id@, now),
            final(self).primary() == old(self).primary(),
            final(self).backup() == old(self).backup(),
            log_extends(old(self)@.log, final(self)@.log),
            old(self)@.wf() ==> final(self)@.wf(),
    {
        if let Phase::Idle = self.phase {
            match self.log_operation(&operation, id.clone(), now) {
                Ok(entry) => {
                    proof {
                        lemma_push_makes_pending(old(self)@.log, id@, operation@, now);
                    }
                    self.phase = Phase::Logging { id, operation };
                    Command::WriteLog(entry)
                },
                Err(e) => Command::Done(Err(e)),
            }
        } else {
            Command::Done(Err(SyncError::Busy))
        }
    }

    /// Submits an operation under a fresh random identifier of 36
    /// characters at the current time. Which identifier and which time is
    /// not known beforehand; the engine moves as `submit` would with them.
    pub fn execute_operation(&mut self, operation: Operation) -> (command: Command)
        ensures
            exists|id: Seq<char>, now: i64|
                id.len() == 36 && (final(self)@, command@) == #[trigger] old(self)@.submit(
                    operation@,
                    id,
                    now,
                ),
            final(self).primary() == old(self).primary(),
            final(self).backup() == old(self).backup(),
            log_extends(old(self)@.log, final(self)@.log),
            old(self)@.wf() ==> final(self)@.wf(),
    {
        let id = fresh_operation_id();
        let now = now_millis();
        let ghost drawn = id@;
        let command = self.submit(operation, id, now);
        assert(drawn.len() == 36 && (self@, command@) == old(self)@.submit(
            operation@,
            drawn,
            now,
        ));
        command
    }

    /// Takes the outcome of the last command, reported at the time `now`,
    /// and answers with the next command. See [`EngineView::resume`] for
    /// each phase.
    pub fn resume_at(&mut self, outcome: Outcome, now: i64) -> (command: Command)
        ensures
            (final(self)@, command@) == old(self)@.resume(outcome_view(outcome), now),
            final(self).primary() == old(self).primary(),
            final(self).backup() == old(self).backup(),
            log_extends(old(self)@.log, final(self)@.log),
            old(self)@.wf() ==> final(self)@.wf(),
    {
        let mut phase = Phase::Idle;
        std::mem::swap(&mut self.phase, &mut phase);
        match phase {
            Phase::Idle => Command::Done(Err(SyncError::Idle)),
            Phase::Logging { id, operation } => match outcome {
                Ok(()) => {
                    let command = Self::execute_on_primary(&operation);
                    self.phase = Phase::Primary { id, operation };
                    command
                },
                Err(reason) => {
                    let _ = self.log.mark(&id, Status::Failed, now);
                    Command::Done(Err(SyncError::Store(reason)))
                },
            },
            Phase::Primary { id, operation } => self.execute_on_both(
                id,
                operation,
                Target::Primary,
                outcome,
                now,
            ),
            Phase::Backup { id, operation } => self.execute_on_both(
                id,
                operation,
                Target::Backup,
                outcome,
                now,
            ),
            Phase::Marking { result } => Command::Done(
                match result {
                    Err(e) => Err(e),
                    Ok(()) => match outcome {
                        Err(reason) => Err(SyncError::Store(reason)),
                        Ok(()) => Ok(()),
                    },
                },
            ),
            Phase::Flushing => self.flush_next(outcome),
        }
    }

    /// Takes the outcome of the last command, reported now, and answers
    /// with the next command. Which time "now" is is not known beforehand;
    /// the engine moves as `resume_at` would with it.
    pub fn resume(&mut self, outcome: Outcome) -> (command: Command)
        ensures
            exists|now: i64|
                (final(self)@, command@) == #[trigger] old(self)@.resume(
                    outcome_view(outcome),
                    now,
                ),
            final(self).primary() == old(self).primary(),
            final(self).backup() == old(self).backup(),
            log_extends(old(self)@.log, final(self)@.log),
            old(self)@.wf() ==> final(self)@.wf(),
    {
        let now = now_millis();
        let ghost reported = outcome_view(outcome);
        let command = self.resume_at(outcome, now);
        assert((self@, command@) == old(self)@.resume(reported, now));
        command
    }

    /// Starts a flush of the retry queue against the backup store. With an
    /// empty queue the flush is over at once and has succeeded, and no store
    /// is touched. Otherwise the command returned has the head of the queue
    /// applied to the backup; the operations follow in queue order as each
    /// success is reported, and the first failure ends the flush with the
    /// failed operation and all behind it still queued.
    pub fn flush_queue(&mut self) -> (command: Command)
        ensures
            (final(self)@, command@) == old(self)@.flush(),
            final(self).primary() == old(self).primary(),
            final(self).backup() == old(self).backup(),
            final(self)@.log == old(self)@.log,
            old(self)@.wf() ==> final(self)@.wf(),
    {
        if let Phase::Idle = self.phase {
            if self.operation_queue.len() == 0 {
                Command::Done(Ok(()))
            } else if self.backup_db.is_none() {
                Command::Done(Err(SyncError::Config))
            } else {
                self.phase = Phase::Flushing;
                Self::execute_on_backup(&self.operation_queue[0])
            }
        } else {
            Command::Done(Err(SyncError::Busy))
        }
    }
}

} // verus!
