//! The operation log: one record per submitted operation, appended before
//! the operation is applied and updated once its outcome is known.

use vstd::prelude::*;
use crate::operation::{Operation, OperationView};

verus! {

/// Lifecycle status of a logged operation.
#[derive(Clone, Copy, Debug, PartialEq, Eq, Structural)]
pub enum Status {
    /// Logged; the primary apply has not been decided yet.
    Pending,
    /// The primary apply succeeded.
    Completed,
    /// The primary apply, or the write of the record itself, failed.
    Failed,
}

impl Status {
    /// Whether a record in this status may be marked `next`. A pending
    /// record may become anything; a completed or failed one keeps its
    /// status for good, and marking it with that same status changes nothing.
    pub open spec fn may_become(self, next: Status) -> bool {
        self == Status::Pending || self == next
    }

    pub fn can_become(&self, next: Status) -> (allowed: bool)
        ensures
            allowed == self.may_become(next),
    {
        match (*self, next) {
            (Status::Pending, _) => true,
            (Status::Completed, Status::Completed) => true,
            (Status::Failed, Status::Failed) => true,
            _ => false,
        }
    }

    /// The word that stands for a status in a persisted record.
    pub open spec fn label(self) -> Seq<char> {
        match self {
            Status::Pending => "pending"@,
            Status::Completed => "completed"@,
            Status::Failed => "failed"@,
        }
    }

    pub fn as_str(&self) -> (word: &'static str)
        ensures
            word@ == self.label(),
    {
        match self {
            Status::Pending => "pending",
            Status::Completed => "completed",
            Status::Failed => "failed",
        }
    }
}

/// Mathematical value of a [`LogEntry`].
pub struct LogEntryView {
    pub id: Seq<char>,
    pub operation: OperationView,
    pub status: Status,
    pub created_at: i64,
    pub updated_at: i64,
}

/// The record of one operation's submission and lifecycle. Timestamps are
/// milliseconds since the Unix epoch.
#[derive(Debug, PartialEq, Eq)]
pub struct LogEntry {
    pub id: String,
    pub operation: Operation,
    pub status: Status,
    pub created_at: i64,
    pub updated_at: i64,
}

impl View for LogEntry {
    type V = LogEntryView;

    open spec fn view(&self) -> LogEntryView {
        LogEntryView {
            id: self.id@,
            operation: self.operation@,
            status: self.status,
            created_at: self.created_at,
            updated_at: self.updated_at,
        }
    }
}

impl Clone for LogEntry {
    fn clone(&self) -> (copy: Self)
        ensures
            copy == *self,
    {
        LogEntry {
            id: self.id.clone(),
            operation: self.operation.clone(),
            status: self.status,
            created_at: self.created_at,
            updated_at: self.updated_at,
        }
    }
}

impl LogEntry {
    /// The type tag of the recorded operation.
    pub fn operation_type(&self) -> (tag: &'static str)
        ensures
            tag@ == self@.operation.type_tag(),
    {
        self.operation.operation_type()
    }
}

/// The record that `append` writes: pending, created and updated at `now`.
pub open spec fn fresh_entry(id: Seq<char>, operation: OperationView, now: i64) -> LogEntryView {
    LogEntryView { id, operation, status: Status::Pending, created_at: now, updated_at: now }
}

/// Whether some record of the log has this id.
pub open spec fn log_contains(log: Seq<LogEntryView>, id: Seq<char>) -> bool {
    exists|i: int| 0 <= i < log.len() && #[trigger] log[i].id == id
}

/// Whether `i` is the place of the first record with this id.
pub open spec fn is_first_with_id(log: Seq<LogEntryView>, id: Seq<char>, i: int) -> bool {
    &&& 0 <= i < log.len()
    &&& log[i].id == id
    &&& forall|j: int| 0 <= j < i ==> (#[trigger] log[j]).id != id
}

/// The place of the first record with this id, where the log has one.
pub open spec fn log_position(log: Seq<LogEntryView>, id: Seq<char>) -> int {
    choose|i: int| is_first_with_id(log, id, i)
}

/// The status recorded for this id, if any.
pub open spec fn log_status(log: Seq<LogEntryView>, id: Seq<char>) -> Option<Status> {
    if log_contains(log, id) {
        Some(log[log_position(log, id)].status)
    } else {
        None
    }
}

/// No two records share an id.
pub open spec fn ids_unique(log: Seq<LogEntryView>) -> bool {
    forall|i: int, j: int|
        0 <= i < log.len() && 0 <= j < log.len() && (#[trigger] log[i]).id == (#[trigger] log[j]).id
            ==> i == j
}

/// The log after `append`: unchanged where the id is taken, else one
/// pending record longer.
pub open spec fn log_append(
    log: Seq<LogEntryView>,
    id: Seq<char>,
    operation: OperationView,
    now: i64,
) -> Seq<LogEntryView> {
    if log_contains(log, id) {
        log
    } else {
        log.push(fresh_entry(id, operation, now))
    }
}

/// The log after `mark`: the record with this id takes the new status and
/// the time of the update, where it is still pending; in every other case
/// the log stays as it is.
pub open spec fn log_mark(log: Seq<LogEntryView>, id: Seq<char>, status: Status, now: i64) -> Seq<
    LogEntryView,
> {
    if log_status(log, id) == Some(Status::Pending) {
        let at = log_position(log, id);
        log.update(at, LogEntryView { status, updated_at: now, ..log[at] })
    } else {
        log
    }
}

/// What `later` must keep of `earlier`: every record is still there, in
/// its place, with its id, operation and time of creation, and a record
/// that was completed or failed has the status it had.
pub open spec fn log_extends(earlier: Seq<LogEntryView>, later: Seq<LogEntryView>) -> bool {
    &&& earlier.len() <= later.len()
    &&& forall|i: int|
        0 <= i < earlier.len() ==> {
            &&& (#[trigger] later[i]).id == earlier[i].id
            &&& later[i].operation == earlier[i].operation
            &&& later[i].created_at == earlier[i].created_at
            &&& earlier[i].status.may_become(later[i].status)
        }
}

/// Why the log refused a request.
#[derive(Clone, Copy, Debug, PartialEq, Eq, Structural)]
pub enum LogError {
    /// `append` with an id that a record already has.
    DuplicateId,
    /// `mark` with an id that no record has.
    UnknownId,
    /// `mark` that would change a completed or failed record.
    Settled,
}

/// What `mark` answers, as a function of the log before it.
pub open spec fn mark_outcome(log: Seq<LogEntryView>, id: Seq<char>, status: Status) -> Result<
    (),
    LogError,
> {
    match log_status(log, id) {
        None => Err(LogError::UnknownId),
        Some(current) => if current.may_become(status) {
            Ok(())
        } else {
            Err(LogError::Settled)
        },
    }
}

/// The first place with this id is the only one that `log_position` can name.
pub proof fn lemma_first_is_position(log: Seq<LogEntryView>, id: Seq<char>, i: int)
    requires
        is_first_with_id(log, id, i),
    ensures
        log_contains(log, id),
        log_position(log, id) == i,
{
    let p = log_position(log, id);
    assert(is_first_with_id(log, id, p));
    if p < i {
        assert(log[p].id != id);
    }
    if i < p {
        assert(log[i].id != id);
    }
}

/// A log that contains an id has a first record with it.
pub proof fn lemma_contains_has_first(log: Seq<LogEntryView>, id: Seq<char>)
    requires
        log_contains(log, id),
    ensures
        is_first_with_id(log, id, log_position(log, id)),
{
    let w = choose|i: int| 0 <= i < log.len() && #[trigger] log[i].id == id;
    lemma_first_below(log, id, w);
}

/// Below any record with the id stands a first one.
proof fn lemma_first_below(log: Seq<LogEntryView>, id: Seq<char>, w: int)
    requires
        0 <= w < log.len(),
        log[w].id == id,
    ensures
        is_first_with_id(log, id, log_position(log, id)),
    decreases w,
{
    if forall|j: int| 0 <= j < w ==> (#[trigger] log[j]).id != id {
        assert(is_first_with_id(log, id, w));
    } else {
        let j = choose|j: int| 0 <= j < w && (#[trigger] log[j]).id == id;
        lemma_first_below(log, id, j);
    }
}

/// Marking keeps every record in its place with its id, changes at most the
/// status and the time of update of one pending record, and keeps ids apart.
pub proof fn lemma_mark_extends(log: Seq<LogEntryView>, id: Seq<char>, status: Status, now: i64)
    ensures
        log_extends(log, log_mark(log, id, status, now)),
        log_mark(log, id, status, now).len() == log.len(),
        ids_unique(log) ==> ids_unique(log_mark(log, id, status, now)),
{
    if log_status(log, id) == Some(Status::Pending) {
        lemma_contains_has_first(log, id);
    }
}

/// Appending keeps every record as it is and, under a fresh id, keeps ids
/// apart.
pub proof fn lemma_append_extends(
    log: Seq<LogEntryView>,
    id: Seq<char>,
    operation: OperationView,
    now: i64,
)
    ensures
        log_extends(log, log_append(log, id, operation, now)),
        ids_unique(log) ==> ids_unique(log_append(log, id, operation, now)),
{
    let longer = log_append(log, id, operation, now);
    if !log_contains(log, id) {
        assert forall|i: int| 0 <= i < log.len() implies #[trigger] longer[i] == log[i] by {}
        if ids_unique(log) {
            assert forall|i: int, j: int|
                0 <= i < longer.len() && 0 <= j < longer.len() && (#[trigger] longer[i]).id == (
                #[trigger] longer[j]).id implies i == j by {
                if i < log.len() {
                    assert(longer[i] == log[i]);
                }
                if j < log.len() {
                    assert(longer[j] == log[j]);
                }
            }
        }
    }
}

/// Extension is transitive.
pub proof fn lemma_extends_transitive(
    first: Seq<LogEntryView>,
    second: Seq<LogEntryView>,
    third: Seq<LogEntryView>,
)
    requires
        log_extends(first, second),
        log_extends(second, third),
    ensures
        log_extends(first, third),
{
    assert forall|i: int| 0 <= i < first.len() implies {
        &&& (#[trigger] third[i]).id == first[i].id
        &&& third[i].operation == first[i].operation
        &&& third[i].created_at == first[i].created_at
        &&& first[i].status.may_become(third[i].status)
    } by {
        assert(second[i].id == first[i].id);
        assert(third[i].id == second[i].id);
    }
}

/// A record found under an id is found under it, at the same place, in
/// every extension, and a completed or failed one with the same status.
pub proof fn lemma_extension_keeps_record(
    earlier: Seq<LogEntryView>,
    later: Seq<LogEntryView>,
    id: Seq<char>,
)
    requires
        log_extends(earlier, later),
        log_contains(earlier, id),
    ensures
        log_contains(later, id),
        log_position(later, id) == log_position(earlier, id),
        log_status(earlier, id)->0.may_become(log_status(later, id)->0),
{
    lemma_contains_has_first(earlier, id);
    let at = log_position(earlier, id);
    assert(later[at].id == id);
    assert forall|j: int| 0 <= j < at implies (#[trigger] later[j]).id != id by {
        assert(later[j].id == earlier[j].id);
    }
    lemma_first_is_position(later, id, at);
}

/// The values of a run of records, in order.
pub open spec fn entries_view(entries: Seq<LogEntry>) -> Seq<LogEntryView> {
    entries.map_values(|e: LogEntry| e@)
}

/// The log of submitted operations, oldest first. Its value is the
/// sequence of its records.
pub struct OperationLog {
    entries: Vec<LogEntry>,
}

impl View for OperationLog {
    type V = Seq<LogEntryView>;

    closed spec fn view(&self) -> Seq<LogEntryView> {
        entries_view(self.entries@)
    }
}

impl OperationLog {
    /// A log without records.
    pub fn new() -> (log: Self)
        ensures
            log@ == Seq::<LogEntryView>::empty(),
    {
        let log = OperationLog { entries: Vec::new() };
        assert(log@ =~= Seq::<LogEntryView>::empty());
        log
    }

    /// The number of records.
    pub fn len(&self) -> (n: usize)
        ensures
            n == self@.len(),
    {
        self.entries.len()
    }

    /// The records, oldest first.
    pub fn entries(&self) -> (entries: &Vec<LogEntry>)
        ensures
            entries_view(entries@) == self@,
    {
        &self.entries
    }

    /// The place of the record with this id.
    pub fn position(&self, id: &String) -> (found: Option<usize>)
        ensures
            match found {
                Some(i) => is_first_with_id(self@, id@, i as int),
                None => !log_contains(self@, id@),
            },
    {
        let mut i: usize = 0;
        while i < self.entries.len()
            invariant
                i <= self.entries.len(),
                forall|j: int| 0 <= j < i ==> (#[trigger] self@[j]).id != id@,
            decreases self.entries.len() - i,
        {
            if self.entries[i].id == *id {
                return Some(i);
            }
            i += 1;
        }
        None
    }

    /// The status recorded for this id.
    pub fn status_of(&self, id: &String) -> (status: Option<Status>)
        ensures
            status == log_status(self@, id@),
    {
        match self.position(id) {
            Some(i) => {
                proof {
                    lemma_first_is_position(self@, id@, i as int);
                }
                Some(self.entries[i].status)
            },
            None => None,
        }
    }

    /// Appends a pending record for `operation` under `id`, created at
    /// `now`. An id that is already taken is refused and the log is left
    /// as it is.
    pub fn append(&mut self, id: String, operation: Operation, now: i64) -> (result: Result<
        (),
        LogError,
    >)
        ensures
            final(self)@ == log_append(old(self)@, id@, operation@, now),
            result == if log_contains(old(self)@, id@) {
                Err::<(), LogError>(LogError::DuplicateId)
            } else {
                Ok::<(), LogError>(())
            },
            log_extends(old(self)@, final(self)@),
            ids_unique(old(self)@) ==> ids_unique(final(self)@),
    {
        match self.position(&id) {
            Some(_) => Err(LogError::DuplicateId),
            None => {
                let entry = LogEntry {
                    id,
                    operation,
                    status: Status::Pending,
                    created_at: now,
                    updated_at: now,
                };
                self.entries.push(entry);
                assert(self@ =~= old(self)@.push(fresh_entry(id@, operation@, now)));
                Ok(())
            },
        }
    }

    /// Sets the status of the record with this id and the time of the
    /// update. A pending record takes any status. A completed or failed
    /// record is never changed: marking it with the status it has succeeds
    /// and does nothing, marking it otherwise is refused.
    pub fn mark(&mut self, id: &String, status: Status, now: i64) -> (result: Result<(), LogError>)
        ensures
            final(self)@ == log_mark(old(self)@, id@, status, now),
            result == mark_outcome(old(self)@, id@, status),
            log_extends(old(self)@, final(self)@),
            ids_unique(old(self)@) ==> ids_unique(final(self)@),
    {
        match self.position(id) {
            None => Err(LogError::UnknownId),
            Some(i) => {
                proof {
                    lemma_first_is_position(self@, id@, i as int);
                }
                let current = self.entries[i].status;
                if !current.can_become(status) {
                    Err(LogError::Settled)
                } else {
                    if let Status::Pending = current {
                        let entry = LogEntry {
                            id: self.entries[i].id.clone(),
                            operation: self.entries[i].operation.clone(),
                            status,
                            created_at: self.entries[i].created_at,
                            updated_at: now,
                        };
                        self.entries.set(i, entry);
                        assert(self@ =~= log_mark(old(self)@, id@, status, now));
                    }
                    Ok(())
                }
            },
        }
    }
}

} // verus!
