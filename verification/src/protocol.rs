//! What passes between the engine and whoever drives it. The engine never
//! touches a store itself: it hands out one [`Command`] at a time, the driver
//! carries it out and reports how that went, and the engine answers with the
//! next command until it says [`Command::Done`].

use vstd::prelude::*;
use crate::applier::{ServiceCall, ServiceCallView, Target};
use crate::operation::{Operation, OperationView};
use crate::oplog::{LogEntry, LogEntryView, Status};

verus! {

/// Mathematical value of a [`SyncError`].
pub enum SyncErrorView {
    Store(Seq<char>),
    Apply { target: Target, reason: Seq<char> },
    Config,
    Busy,
    Idle,
    DuplicateId,
}

/// Why a submission or a flush did not succeed.
#[derive(Debug, PartialEq, Eq)]
pub enum SyncError {
    /// The primary store could not write or update the log record.
    Store(String),
    /// A collaborator could not carry out the operation against `target`:
    /// the primary during a submission, the backup during a flush.
    Apply { target: Target, reason: String },
    /// A flush was asked for though no backup store is configured.
    Config,
    /// An earlier submission or flush has not reached its end.
    Busy,
    /// An outcome was reported though the engine had asked for nothing.
    Idle,
    /// The log already holds a record with the identifier offered.
    DuplicateId,
}

impl View for SyncError {
    type V = SyncErrorView;

    open spec fn view(&self) -> SyncErrorView {
        match self {
            SyncError::Store(why) => SyncErrorView::Store(why@),
            SyncError::Apply { target, reason } => SyncErrorView::Apply {
                target: *target,
                reason: reason@,
            },
            SyncError::Config => SyncErrorView::Config,
            SyncError::Busy => SyncErrorView::Busy,
            SyncError::Idle => SyncErrorView::Idle,
            SyncError::DuplicateId => SyncErrorView::DuplicateId,
        }
    }
}

impl SyncErrorView {
    /// The sentence that reports the error.
    pub open spec fn message(self) -> Seq<char> {
        match self {
            SyncErrorView::Store(why) => why,
            SyncErrorView::Apply { target: Target::Primary, reason } => {
                "Failed to execute on primary: "@ + reason
            },
            SyncErrorView::Apply { target: Target::Backup, reason } => {
                "Failed to execute on backup: "@ + reason
            },
            SyncErrorView::Config => "No backup store is configured"@,
            SyncErrorView::Busy => "Another operation is in progress"@,
            SyncErrorView::Idle => "No operation is in progress"@,
            SyncErrorView::DuplicateId => "Operation id is already logged"@,
        }
    }
}

impl Clone for SyncError {
    fn clone(&self) -> (copy: Self)
        ensures
            copy == *self,
    {
        match self {
            SyncError::Store(why) => SyncError::Store(why.clone()),
            SyncError::Apply { target, reason } => SyncError::Apply {
                target: *target,
                reason: reason.clone(),
            },
            SyncError::Config => SyncError::Config,
            SyncError::Busy => SyncError::Busy,
            SyncError::Idle => SyncError::Idle,
            SyncError::DuplicateId => SyncError::DuplicateId,
        }
    }
}

impl SyncError {
    /// The sentence that reports the error to a caller.
    pub fn message(&self) -> (text: String)
        ensures
            text@ == self@.message(),
    {
        match self {
            SyncError::Store(why) => why.clone(),
            SyncError::Apply { target: Target::Primary, reason } => String::from_str(
                "Failed to execute on primary: ",
            ).concat(reason.as_str()),
            SyncError::Apply { target: Target::Backup, reason } => String::from_str(
                "Failed to execute on backup: ",
            ).concat(reason.as_str()),
            SyncError::Config => String::from_str("No backup store is configured"),
            SyncError::Busy => String::from_str("Another operation is in progress"),
            SyncError::Idle => String::from_str("No operation is in progress"),
            SyncError::DuplicateId => String::from_str("Operation id is already logged"),
        }
    }
}

/// How the driver fared with the last command: success, or the
/// collaborator's or the store's description of what went wrong.
pub type Outcome = Result<(), String>;

/// The value of an [`Outcome`].
pub open spec fn outcome_view(outcome: Outcome) -> Result<(), Seq<char>> {
    match outcome {
        Ok(()) => Ok(()),
        Err(why) => Err(why@),
    }
}

/// The value of the result that ends a submission or a flush.
pub open spec fn result_view(result: Result<(), SyncError>) -> Result<(), SyncErrorView> {
    match result {
        Ok(()) => Ok(()),
        Err(e) => Err(e@),
    }
}

/// Mathematical value of a [`Command`].
pub enum CommandView {
    WriteLog(LogEntryView),
    Apply { target: Target, call: ServiceCallView },
    WriteStatus { id: Seq<char>, status: Status, updated_at: i64 },
    Done(Result<(), SyncErrorView>),
}

impl CommandView {
    /// Whether the command asks for work on a store.
    pub open spec fn touches_store(self) -> bool {
        !(self is Done)
    }
}

/// What the engine asks its driver to do next.
#[derive(Debug, PartialEq, Eq)]
pub enum Command {
    /// Write this new record to the log in the primary store, durably.
    WriteLog(LogEntry),
    /// Carry out this request against the target store.
    Apply { target: Target, call: ServiceCall },
    /// Set the status of a record in the log in the primary store.
    WriteStatus { id: String, status: Status, updated_at: i64 },
    /// Nothing more: hand this result to the caller.
    Done(Result<(), SyncError>),
}

impl View for Command {
    type V = CommandView;

    open spec fn view(&self) -> CommandView {
        match self {
            Command::WriteLog(entry) => CommandView::WriteLog(entry@),
            Command::Apply { target, call } => CommandView::Apply { target: *target, call: call@ },
            Command::WriteStatus { id, status, updated_at } => CommandView::WriteStatus {
                id: id@,
                status: *status,
                updated_at: *updated_at,
            },
            Command::Done(result) => CommandView::Done(result_view(*result)),
        }
    }
}

/// Mathematical value of a [`Phase`].
pub enum PhaseView {
    Idle,
    Logging { id: Seq<char>, operation: OperationView },
    Primary { id: Seq<char>, operation: OperationView },
    Backup { id: Seq<char>, operation: OperationView },
    Marking { result: Result<(), SyncErrorView> },
    Flushing,
}

/// Where the engine stands between two commands.
#[derive(Debug, PartialEq, Eq)]
pub enum Phase {
    /// Nothing is in progress.
    Idle,
    /// The record of a submission is being written to the log.
    Logging { id: String, operation: Operation },
    /// The operation is being applied to the primary store.
    Primary { id: String, operation: Operation },
    /// The operation is being applied to the backup store.
    Backup { id: String, operation: Operation },
    /// The record's final status is being written; `result` is what the
    /// caller will be told.
    Marking { result: Result<(), SyncError> },
    /// The head of the retry queue is being applied to the backup store.
    Flushing,
}

impl View for Phase {
    type V = PhaseView;

    open spec fn view(&self) -> PhaseView {
        match self {
            Phase::Idle => PhaseView::Idle,
            Phase::Logging { id, operation } => PhaseView::Logging {
                id: id@,
                operation: operation@,
            },
            Phase::Primary { id, operation } => PhaseView::Primary {
                id: id@,
                operation: operation@,
            },
            Phase::Backup { id, operation } => PhaseView::Backup {
                id: id@,
                operation: operation@,
            },
            Phase::Marking { result } => PhaseView::Marking { result: result_view(*result) },
            Phase::Flushing => PhaseView::Flushing,
        }
    }
}

} // verus!
