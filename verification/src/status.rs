//! Read-only reports on the engine, computed when asked for.

use vstd::prelude::*;
use crate::engine::{EngineView, SyncEngine};
use crate::sources::now_millis;

verus! {

/// How many operations wait for the backup.
#[derive(Clone, Copy, Debug, PartialEq, Eq, Structural)]
pub struct QueueStatus {
    pub pending_operations: usize,
}

/// The state of replication as seen at one moment.
#[derive(Clone, Copy, Debug, PartialEq, Eq, Structural)]
pub struct SyncStatus {
    pub primary_connected: bool,
    pub backup_connected: bool,
    /// Milliseconds since the Unix epoch.
    pub last_sync: i64,
    pub is_in_sync: bool,
    pub pending_operations: usize,
}

/// The report on an engine, given what probing the two stores found and the
/// time to report. A backup counts as connected only where one is
/// configured; the stores are in sync where the queue is empty and the
/// backup is connected.
pub open spec fn sync_status_of(
    engine: EngineView,
    primary_reachable: bool,
    backup_reachable: bool,
    last_sync: i64,
) -> SyncStatus
    recommends
        engine.queue.len() <= usize::MAX,
{
    SyncStatus {
        primary_connected: primary_reachable,
        backup_connected: engine.backup && backup_reachable,
        last_sync,
        is_in_sync: engine.queue.len() == 0 && engine.backup && backup_reachable,
        pending_operations: engine.queue.len() as usize,
    }
}

impl<S> SyncEngine<S> {
    /// The length of the retry queue.
    pub fn queue_status(&self) -> (status: QueueStatus)
        ensures
            status.pending_operations == self@.queue.len(),
    {
        QueueStatus { pending_operations: self.queue().len() }
    }

    /// The report on this engine; it changes nothing.
    pub fn sync_status(
        &self,
        primary_reachable: bool,
        backup_reachable: bool,
        last_sync: i64,
    ) -> (status: SyncStatus)
        ensures
            status == sync_status_of(self@, primary_reachable, backup_reachable, last_sync),
            status.pending_operations == self@.queue.len(),
            status.is_in_sync == (self@.queue.len() == 0 && status.backup_connected),
    {
        let pending_operations = self.queue().len();
        let backup_connected = self.backup_db().is_some() && backup_reachable;
        SyncStatus {
            primary_connected: primary_reachable,
            backup_connected,
            last_sync,
            is_in_sync: pending_operations == 0 && backup_connected,
            pending_operations,
        }
    }
}

/// The report on an engine as of now. Which time that is is not known
/// beforehand; everything else is as `sync_status` gives it.
pub fn verify_sync_status<S>(
    engine: &SyncEngine<S>,
    primary_reachable: bool,
    backup_reachable: bool,
) -> (status: SyncStatus)
    ensures
        status == sync_status_of(engine@, primary_reachable, backup_reachable, status.last_sync),
{
    let now = now_millis();
    engine.sync_status(primary_reachable, backup_reachable, now)
}

} // verus!
