use photovault::applier::{ServiceCall, Target};
use photovault::engine::SyncEngine;
use photovault::operation::Operation;
use photovault::oplog::{LogEntry, Status};
use photovault::protocol::{Command, Outcome, Phase, SyncError};

/// A store held in memory: what it contains and every request it received.
struct MemStore {
    albums: Vec<String>,
    members: Vec<(i64, i64)>,
    tags: Vec<(i64, String)>,
    received: Vec<ServiceCall>,
    reachable: bool,
    refuse_album: Option<String>,
}

impl MemStore {
    fn new() -> Self {
        MemStore {
            albums: Vec::new(),
            members: Vec::new(),
            tags: Vec::new(),
            received: Vec::new(),
            reachable: true,
            refuse_album: None,
        }
    }

    fn perform(&mut self, call: ServiceCall) -> Outcome {
        if !self.reachable {
            return Err("store unreachable".to_string());
        }
        if let ServiceCall::CreateAlbum { name } = &call {
            if self.refuse_album.as_ref() == Some(name) {
                return Err(format!("cannot create {}", name));
            }
        }
        match &call {
            ServiceCall::CreateAlbum { name } => {
                if !self.albums.contains(name) {
                    self.albums.push(name.clone());
                }
            }
            ServiceCall::AddAlbumMembers { photo_ids, album_id } => {
                for photo_id in photo_ids {
                    self.members.push((*photo_id, *album_id));
                }
            }
            ServiceCall::AddTag { photo_id, tag_name } => {
                self.tags.push((*photo_id, tag_name.clone()));
            }
            _ => {}
        }
        self.received.push(call);
        Ok(())
    }
}

/// The two stores and the log table of the primary.
struct World {
    primary: MemStore,
    backup: MemStore,
    rows: Vec<(String, String, Status)>,
    log_writable: bool,
    status_writable: bool,
    clock: i64,
}

impl World {
    fn new() -> Self {
        World {
            primary: MemStore::new(),
            backup: MemStore::new(),
            rows: Vec::new(),
            log_writable: true,
            status_writable: true,
            clock: 1_000,
        }
    }

    fn carry_out(&mut self, command: Command) -> Outcome {
        match command {
            Command::WriteLog(entry) => {
                if !self.log_writable {
                    return Err("disk full".to_string());
                }
                self.rows.push((entry.id.clone(), entry.operation_type().to_string(), entry.status));
                Ok(())
            }
            Command::Apply { target: Target::Primary, call } => self.primary.perform(call),
            Command::Apply { target: Target::Backup, call } => self.backup.perform(call),
            Command::WriteStatus { id, status, .. } => {
                if !self.status_writable {
                    return Err("row locked".to_string());
                }
                for row in self.rows.iter_mut() {
                    if row.0 == id {
                        row.2 = status;
                    }
                }
                Ok(())
            }
            Command::Done(_) => unreachable!(),
        }
    }

    /// Runs the engine from a first command to the end of the call.
    fn drive(&mut self, engine: &mut SyncEngine<&'static str>, first: Command) -> Result<(), SyncError> {
        let mut command = first;
        loop {
            if let Command::Done(result) = command {
                return result;
            }
            let outcome = self.carry_out(command);
            self.clock += 1;
            command = engine.resume_at(outcome, self.clock);
        }
    }

    fn submit(
        &mut self,
        engine: &mut SyncEngine<&'static str>,
        operation: Operation,
        id: &str,
    ) -> Result<(), SyncError> {
        self.clock += 1;
        let first = engine.submit(operation, id.to_string(), self.clock);
        self.drive(engine, first)
    }

    fn flush(&mut self, engine: &mut SyncEngine<&'static str>) -> Result<(), SyncError> {
        let first = engine.flush_queue();
        self.drive(engine, first)
    }
}

fn album(name: &str) -> Operation {
    Operation::CreateAlbum { name: name.to_string() }
}

fn queued(engine: &SyncEngine<&'static str>) -> Vec<Operation> {
    engine.queue().iter().cloned().collect()
}

fn status_of(engine: &SyncEngine<&'static str>, id: &str) -> Option<Status> {
    engine.log().status_of(&id.to_string())
}

#[test]
fn new_engine_is_idle_and_empty() {
    let engine = SyncEngine::new("primary", Some("backup"));
    assert_eq!(*engine.primary_db(), "primary");
    assert_eq!(engine.backup_db(), Some(&"backup"));
    assert_eq!(engine.queue().len(), 0);
    assert_eq!(engine.log().len(), 0);
    assert_eq!(*engine.phase(), Phase::Idle);
    assert_eq!(engine.queue_status().pending_operations, 0);
}

#[test]
fn end_to_end_album_reaches_backup_after_flush() {
    let mut world = World::new();
    let mut engine = SyncEngine::new("primary", None);

    assert_eq!(world.submit(&mut engine, album("Trip"), "op-1"), Ok(()));
    assert_eq!(world.primary.albums, vec!["Trip".to_string()]);
    assert!(world.backup.albums.is_empty());
    assert_eq!(engine.queue_status().pending_operations, 1);
    assert!(!engine.sync_status(true, false, 5).is_in_sync);

    engine.set_backup(Some("backup"));
    assert_eq!(world.flush(&mut engine), Ok(()));
    assert_eq!(world.backup.albums, vec!["Trip".to_string()]);
    assert_eq!(engine.queue_status().pending_operations, 0);
    assert!(engine.sync_status(true, true, 6).is_in_sync);
}

#[test]
fn submission_walks_through_the_phases() {
    let mut engine = SyncEngine::new("primary", Some("backup"));
    let first = engine.submit(album("Trip"), "op-1".to_string(), 10);
    assert_eq!(
        first,
        Command::WriteLog(LogEntry {
            id: "op-1".to_string(),
            operation: album("Trip"),
            status: Status::Pending,
            created_at: 10,
            updated_at: 10,
        })
    );
    assert_eq!(
        *engine.phase(),
        Phase::Logging { id: "op-1".to_string(), operation: album("Trip") }
    );
    assert_eq!(status_of(&engine, "op-1"), Some(Status::Pending));

    let second = engine.resume_at(Ok(()), 11);
    assert_eq!(
        second,
        Command::Apply {
            target: Target::Primary,
            call: ServiceCall::CreateAlbum { name: "Trip".to_string() },
        }
    );
    assert_eq!(status_of(&engine, "op-1"), Some(Status::Pending));

    let third = engine.resume_at(Ok(()), 12);
    assert_eq!(
        third,
        Command::Apply {
            target: Target::Backup,
            call: ServiceCall::CreateAlbum { name: "Trip".to_string() },
        }
    );
    assert_eq!(
        *engine.phase(),
        Phase::Backup { id: "op-1".to_string(), operation: album("Trip") }
    );

    let fourth = engine.resume_at(Ok(()), 13);
    assert_eq!(
        fourth,
        Command::WriteStatus { id: "op-1".to_string(), status: Status::Completed, updated_at: 13 }
    );
    assert_eq!(*engine.phase(), Phase::Marking { result: Ok(()) });
    assert_eq!(status_of(&engine, "op-1"), Some(Status::Completed));
    assert_eq!(engine.log().entries()[0].created_at, 10);
    assert_eq!(engine.log().entries()[0].updated_at, 13);

    assert_eq!(engine.resume_at(Ok(()), 14), Command::Done(Ok(())));
    assert_eq!(*engine.phase(), Phase::Idle);
    assert_eq!(engine.queue().len(), 0);
}

#[test]
fn primary_failure_marks_failed_and_queues_nothing() {
    let mut world = World::new();
    world.primary.refuse_album = Some("Trip".to_string());
    let mut engine = SyncEngine::new("primary", Some("backup"));
    assert_eq!(world.submit(&mut engine, album("Rome"), "op-0"), Ok(()));
    world.backup.reachable = false;
    assert_eq!(world.submit(&mut engine, album("Oslo"), "op-q"), Ok(()));
    let before = queued(&engine);

    let result = world.submit(&mut engine, album("Trip"), "op-1");
    assert_eq!(
        result,
        Err(SyncError::Apply {
            target: Target::Primary,
            reason: "cannot create Trip".to_string(),
        })
    );
    assert_eq!(queued(&engine), before);
    assert_eq!(engine.queue().len(), 1);
    assert_eq!(status_of(&engine, "op-1"), Some(Status::Failed));
    assert_eq!(world.rows[2], ("op-1".to_string(), "create_album".to_string(), Status::Failed));
    assert!(world.backup.received.iter().all(|call| *call
        != ServiceCall::CreateAlbum { name: "Trip".to_string() }));
}

#[test]
fn unreachable_backup_queues_one_per_submission_in_order() {
    let mut world = World::new();
    world.backup.reachable = false;
    let mut engine = SyncEngine::new("primary", Some("backup"));
    let operations = vec![
        album("A"),
        Operation::AddToAlbum { photo_id: 7, album_id: 1 },
        Operation::AddTag { photo_id: 7, tag_name: "sea".to_string() },
    ];
    for (i, operation) in operations.iter().enumerate() {
        let id = format!("op-{}", i);
        assert_eq!(world.submit(&mut engine, operation.clone(), &id), Ok(()));
        assert_eq!(engine.queue().len(), i + 1);
        assert_eq!(status_of(&engine, &id), Some(Status::Completed));
    }
    assert_eq!(queued(&engine), operations);
    assert_eq!(world.primary.received.len(), 3);
    assert!(world.backup.received.is_empty());
}

#[test]
fn missing_backup_queues_one_per_submission_in_order() {
    let mut world = World::new();
    let mut engine = SyncEngine::new("primary", None);
    assert_eq!(world.submit(&mut engine, album("A"), "a"), Ok(()));
    assert_eq!(engine.queue().len(), 1);
    assert_eq!(world.submit(&mut engine, album("B"), "b"), Ok(()));
    assert_eq!(engine.queue().len(), 2);
    assert_eq!(queued(&engine), vec![album("A"), album("B")]);
    assert!(world.backup.received.is_empty());
}

#[test]
fn reachable_backup_queues_nothing() {
    let mut world = World::new();
    let mut engine = SyncEngine::new("primary", Some("backup"));
    assert_eq!(world.submit(&mut engine, album("A"), "a"), Ok(()));
    assert_eq!(engine.queue().len(), 0);
    assert_eq!(world.primary.albums, vec!["A".to_string()]);
    assert_eq!(world.backup.albums, vec!["A".to_string()]);
    assert_eq!(status_of(&engine, "a"), Some(Status::Completed));
}

#[test]
fn flush_of_empty_queue_succeeds_without_store_calls() {
    let mut world = World::new();
    let mut engine = SyncEngine::new("primary", Some("backup"));
    assert_eq!(engine.flush_queue(), Command::Done(Ok(())));
    assert_eq!(*engine.phase(), Phase::Idle);
    assert_eq!(world.flush(&mut engine), Ok(()));
    assert!(world.primary.received.is_empty());
    assert!(world.backup.received.is_empty());

    let mut lonely = SyncEngine::new("primary", None);
    assert_eq!(lonely.flush_queue(), Command::Done(Ok(())));
}

#[test]
fn flush_replays_in_submission_order() {
    let mut world = World::new();
    world.backup.reachable = false;
    let mut engine = SyncEngine::new("primary", Some("backup"));
    assert_eq!(world.submit(&mut engine, album("first"), "o1"), Ok(()));
    assert_eq!(world.submit(&mut engine, album("second"), "o2"), Ok(()));

    world.backup.reachable = true;
    assert_eq!(world.flush(&mut engine), Ok(()));
    assert_eq!(
        world.backup.received,
        vec![
            ServiceCall::CreateAlbum { name: "first".to_string() },
            ServiceCall::CreateAlbum { name: "second".to_string() },
        ]
    );
    assert_eq!(engine.queue().len(), 0);
    assert_eq!(world.primary.received.len(), 2);
}

#[test]
fn flush_failure_at_head_leaves_queue_unchanged() {
    let mut world = World::new();
    world.backup.reachable = false;
    let mut engine = SyncEngine::new("primary", Some("backup"));
    assert_eq!(world.submit(&mut engine, album("o1"), "o1"), Ok(()));
    assert_eq!(world.submit(&mut engine, album("o2"), "o2"), Ok(()));

    world.backup.reachable = true;
    world.backup.refuse_album = Some("o1".to_string());
    assert_eq!(
        world.flush(&mut engine),
        Err(SyncError::Apply { target: Target::Backup, reason: "cannot create o1".to_string() })
    );
    assert_eq!(queued(&engine), vec![album("o1"), album("o2")]);
    assert!(world.backup.received.is_empty());
    assert_eq!(*engine.phase(), Phase::Idle);
}

#[test]
fn flush_failure_in_the_middle_keeps_the_rest_in_order() {
    let mut world = World::new();
    world.backup.reachable = false;
    let mut engine = SyncEngine::new("primary", Some("backup"));
    for name in ["a", "b", "c", "d"] {
        assert_eq!(world.submit(&mut engine, album(name), name), Ok(()));
    }
    world.backup.reachable = true;
    world.backup.refuse_album = Some("c".to_string());
    assert!(world.flush(&mut engine).is_err());
    assert_eq!(queued(&engine), vec![album("c"), album("d")]);
    assert_eq!(world.backup.albums, vec!["a".to_string(), "b".to_string()]);

    world.backup.refuse_album = None;
    assert_eq!(world.flush(&mut engine), Ok(()));
    assert_eq!(engine.queue().len(), 0);
    assert_eq!(
        world.backup.albums,
        vec!["a".to_string(), "b".to_string(), "c".to_string(), "d".to_string()]
    );
}

#[test]
fn flush_does_not_touch_the_primary() {
    let mut world = World::new();
    let mut engine = SyncEngine::new("primary", None);
    assert_eq!(world.submit(&mut engine, album("A"), "a"), Ok(()));
    let seen = world.primary.received.len();
    engine.set_backup(Some("backup"));
    assert_eq!(world.flush(&mut engine), Ok(()));
    assert_eq!(world.primary.received.len(), seen);
}

#[test]
fn flush_without_backup_reports_config_error() {
    let mut world = World::new();
    let mut engine = SyncEngine::new("primary", None);
    assert_eq!(world.submit(&mut engine, album("A"), "a"), Ok(()));
    assert_eq!(engine.flush_queue(), Command::Done(Err(SyncError::Config)));
    assert_eq!(queued(&engine), vec![album("A")]);
    assert_eq!(*engine.phase(), Phase::Idle);
}

#[test]
fn completed_record_never_reverts() {
    let mut world = World::new();
    let mut engine = SyncEngine::new("primary", None);
    assert_eq!(world.submit(&mut engine, album("A"), "a"), Ok(()));
    assert_eq!(status_of(&engine, "a"), Some(Status::Completed));

    world.primary.refuse_album = Some("B".to_string());
    assert!(world.submit(&mut engine, album("B"), "b").is_err());
    assert_eq!(world.submit(&mut engine, album("A"), "a"), Err(SyncError::DuplicateId));
    engine.set_backup(Some("backup"));
    world.backup.reachable = false;
    assert!(world.flush(&mut engine).is_err());
    world.backup.reachable = true;
    assert_eq!(world.flush(&mut engine), Ok(()));

    assert_eq!(status_of(&engine, "a"), Some(Status::Completed));
    assert_eq!(status_of(&engine, "b"), Some(Status::Failed));
}

#[test]
fn duplicate_id_is_refused_and_changes_nothing() {
    let mut world = World::new();
    let mut engine = SyncEngine::new("primary", None);
    assert_eq!(world.submit(&mut engine, album("A"), "same"), Ok(()));
    let command = engine.submit(album("B"), "same".to_string(), 99);
    assert_eq!(command, Command::Done(Err(SyncError::DuplicateId)));
    assert_eq!(engine.log().len(), 1);
    assert_eq!(engine.queue().len(), 1);
    assert_eq!(*engine.phase(), Phase::Idle);
}

#[test]
fn busy_engine_refuses_submit_and_flush() {
    let mut engine = SyncEngine::new("primary", Some("backup"));
    let _ = engine.submit(album("A"), "a".to_string(), 1);
    assert_eq!(engine.submit(album("B"), "b".to_string(), 2), Command::Done(Err(SyncError::Busy)));
    assert_eq!(engine.flush_queue(), Command::Done(Err(SyncError::Busy)));
    assert_eq!(engine.log().len(), 1);
    assert_eq!(*engine.phase(), Phase::Logging { id: "a".to_string(), operation: album("A") });
}

#[test]
fn idle_engine_refuses_outcomes() {
    let mut engine = SyncEngine::new("primary", Some("backup"));
    assert_eq!(engine.resume_at(Ok(()), 1), Command::Done(Err(SyncError::Idle)));
    assert_eq!(engine.resume_at(Err("x".to_string()), 1), Command::Done(Err(SyncError::Idle)));
    assert_eq!(*engine.phase(), Phase::Idle);
}

#[test]
fn log_write_failure_is_fatal_for_the_operation() {
    let mut world = World::new();
    world.log_writable = false;
    let mut engine = SyncEngine::new("primary", Some("backup"));
    assert_eq!(
        world.submit(&mut engine, album("A"), "a"),
        Err(SyncError::Store("disk full".to_string()))
    );
    assert_eq!(status_of(&engine, "a"), Some(Status::Failed));
    assert!(world.primary.received.is_empty());
    assert!(world.backup.received.is_empty());
    assert_eq!(engine.queue().len(), 0);
}

#[test]
fn status_write_failure_is_reported_after_the_work_is_done() {
    let mut world = World::new();
    world.status_writable = false;
    let mut engine = SyncEngine::new("primary", None);
    assert_eq!(
        world.submit(&mut engine, album("A"), "a"),
        Err(SyncError::Store("row locked".to_string()))
    );
    assert_eq!(status_of(&engine, "a"), Some(Status::Completed));
    assert_eq!(queued(&engine), vec![album("A")]);
    assert_eq!(world.primary.albums, vec!["A".to_string()]);

    world.primary.refuse_album = Some("B".to_string());
    assert_eq!(
        world.submit(&mut engine, album("B"), "b"),
        Err(SyncError::Apply { target: Target::Primary, reason: "cannot create B".to_string() })
    );
}

#[test]
fn log_operation_appends_a_pending_record() {
    let mut engine = SyncEngine::new("primary", None);
    let entry = engine.log_operation(&album("A"), "a".to_string(), 42);
    assert_eq!(
        entry,
        Ok(LogEntry {
            id: "a".to_string(),
            operation: album("A"),
            status: Status::Pending,
            created_at: 42,
            updated_at: 42,
        })
    );
    assert_eq!(engine.log().len(), 1);
    assert_eq!(engine.log_operation(&album("B"), "a".to_string(), 43), Err(SyncError::DuplicateId));
    assert_eq!(engine.log().len(), 1);
    assert_eq!(engine.log().entries()[0].operation, album("A"));
}

#[test]
fn handle_backup_disconnected_appends_at_the_tail() {
    let mut engine = SyncEngine::new("primary", None);
    engine.handle_backup_disconnected(album("A"));
    engine.handle_backup_disconnected(album("B"));
    assert_eq!(queued(&engine), vec![album("A"), album("B")]);
    assert_eq!(engine.log().len(), 0);
}

#[test]
fn set_backup_keeps_queue_and_log() {
    let mut world = World::new();
    let mut engine = SyncEngine::new("primary", None);
    assert_eq!(world.submit(&mut engine, album("A"), "a"), Ok(()));
    engine.set_backup(Some("mirror"));
    assert_eq!(engine.backup_db(), Some(&"mirror"));
    assert_eq!(queued(&engine), vec![album("A")]);
    assert_eq!(engine.log().len(), 1);
    engine.set_backup(None);
    assert_eq!(engine.backup_db(), None);
    assert_eq!(*engine.primary_db(), "primary");
}

#[test]
fn execute_operation_draws_a_fresh_id_each_time() {
    let mut engine = SyncEngine::new("primary", None);
    let first = match engine.execute_operation(album("A")) {
        Command::WriteLog(entry) => entry,
        other => panic!("unexpected command {:?}", other),
    };
    assert_eq!(first.id.len(), 36);
    assert_eq!(first.id.chars().filter(|c| *c == '-').count(), 4);
    assert!(first.id.chars().all(|c| c == '-' || c.is_ascii_hexdigit()));
    assert_eq!(first.status, Status::Pending);
    assert_eq!(first.operation, album("A"));
    assert_eq!(first.created_at, first.updated_at);
    assert!(first.created_at > 1_600_000_000_000);
    assert_eq!(engine.resume(Ok(())), Command::Apply {
        target: Target::Primary,
        call: ServiceCall::CreateAlbum { name: "A".to_string() },
    });
    match engine.resume(Ok(())) {
        Command::WriteStatus { id, status, updated_at } => {
            assert_eq!(id, first.id);
            assert_eq!(status, Status::Completed);
            assert!(updated_at >= first.created_at);
        }
        other => panic!("unexpected command {:?}", other),
    }
    assert_eq!(engine.resume(Ok(())), Command::Done(Ok(())));

    let second = match engine.execute_operation(album("B")) {
        Command::WriteLog(entry) => entry,
        other => panic!("unexpected command {:?}", other),
    };
    assert_ne!(first.id, second.id);
}
