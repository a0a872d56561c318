use photovault::operation::Operation;
use photovault::oplog::{LogError, OperationLog, Status};

fn delete(path: &str) -> Operation {
    Operation::Delete { path: path.to_string() }
}

#[test]
fn append_records_pending_entries_in_order() {
    let mut log = OperationLog::new();
    assert_eq!(log.len(), 0);
    assert_eq!(log.append("a".to_string(), delete("/x"), 5), Ok(()));
    assert_eq!(log.append("b".to_string(), delete("/y"), 6), Ok(()));
    assert_eq!(log.len(), 2);
    let entries = log.entries();
    assert_eq!(entries[0].id, "a");
    assert_eq!(entries[0].operation, delete("/x"));
    assert_eq!(entries[0].status, Status::Pending);
    assert_eq!(entries[0].created_at, 5);
    assert_eq!(entries[0].updated_at, 5);
    assert_eq!(entries[1].id, "b");
    assert_eq!(entries[1].operation_type(), "delete");
    assert_eq!(log.position(&"b".to_string()), Some(1));
    assert_eq!(log.position(&"c".to_string()), None);
}

#[test]
fn append_refuses_a_taken_id() {
    let mut log = OperationLog::new();
    assert_eq!(log.append("a".to_string(), delete("/x"), 5), Ok(()));
    assert_eq!(log.append("a".to_string(), delete("/y"), 6), Err(LogError::DuplicateId));
    assert_eq!(log.len(), 1);
    assert_eq!(log.entries()[0].operation, delete("/x"));
}

#[test]
fn mark_sets_status_and_update_time() {
    let mut log = OperationLog::new();
    log.append("a".to_string(), delete("/x"), 5).unwrap();
    log.append("b".to_string(), delete("/y"), 6).unwrap();
    assert_eq!(log.mark(&"b".to_string(), Status::Completed, 9), Ok(()));
    assert_eq!(log.status_of(&"b".to_string()), Some(Status::Completed));
    assert_eq!(log.entries()[1].updated_at, 9);
    assert_eq!(log.entries()[1].created_at, 6);
    assert_eq!(log.status_of(&"a".to_string()), Some(Status::Pending));
    assert_eq!(log.entries()[0].updated_at, 5);
}

#[test]
fn mark_never_changes_a_completed_record() {
    let mut log = OperationLog::new();
    log.append("a".to_string(), delete("/x"), 5).unwrap();
    assert_eq!(log.mark(&"a".to_string(), Status::Completed, 6), Ok(()));
    assert_eq!(log.mark(&"a".to_string(), Status::Failed, 7), Err(LogError::Settled));
    assert_eq!(log.mark(&"a".to_string(), Status::Pending, 8), Err(LogError::Settled));
    assert_eq!(log.mark(&"a".to_string(), Status::Completed, 9), Ok(()));
    assert_eq!(log.status_of(&"a".to_string()), Some(Status::Completed));
    assert_eq!(log.entries()[0].updated_at, 6);
}

#[test]
fn mark_never_changes_a_failed_record() {
    let mut log = OperationLog::new();
    log.append("a".to_string(), delete("/x"), 5).unwrap();
    assert_eq!(log.mark(&"a".to_string(), Status::Failed, 6), Ok(()));
    assert_eq!(log.mark(&"a".to_string(), Status::Completed, 7), Err(LogError::Settled));
    assert_eq!(log.status_of(&"a".to_string()), Some(Status::Failed));
}

#[test]
fn mark_of_unknown_id_is_refused() {
    let mut log = OperationLog::new();
    assert_eq!(log.mark(&"nobody".to_string(), Status::Completed, 1), Err(LogError::UnknownId));
    assert_eq!(log.status_of(&"nobody".to_string()), None);
    assert_eq!(log.len(), 0);
}

#[test]
fn pending_may_be_marked_pending_again() {
    let mut log = OperationLog::new();
    log.append("a".to_string(), delete("/x"), 5).unwrap();
    assert_eq!(log.mark(&"a".to_string(), Status::Pending, 8), Ok(()));
    assert_eq!(log.status_of(&"a".to_string()), Some(Status::Pending));
    assert_eq!(log.entries()[0].updated_at, 8);
}

#[test]
fn status_transitions_and_words() {
    assert!(Status::Pending.can_become(Status::Pending));
    assert!(Status::Pending.can_become(Status::Completed));
    assert!(Status::Pending.can_become(Status::Failed));
    assert!(Status::Completed.can_become(Status::Completed));
    assert!(!Status::Completed.can_become(Status::Pending));
    assert!(!Status::Completed.can_become(Status::Failed));
    assert!(Status::Failed.can_become(Status::Failed));
    assert!(!Status::Failed.can_become(Status::Pending));
    assert!(!Status::Failed.can_become(Status::Completed));
    assert_eq!(Status::Pending.as_str(), "pending");
    assert_eq!(Status::Completed.as_str(), "completed");
    assert_eq!(Status::Failed.as_str(), "failed");
}
