use dump_transfer::error::DumpError;
use dump_transfer::manager::DumpProcessManager;
use dump_transfer::registry::{DumpInfo, DumpRegistry, DumpStatus};

#[test]
fn untriggered_uid_is_not_found() {
    let manager = DumpProcessManager::new();
    assert_eq!(manager.status("20200101-000000", false), Err(DumpError::NotFound));
    assert!(manager.current().is_none());
}

#[test]
fn other_uid_is_not_found_while_one_runs() {
    let mut manager = DumpProcessManager::new();
    manager.trigger("a".to_string(), 10, false).unwrap();
    assert_eq!(manager.status("b", false), Err(DumpError::NotFound));
}

#[test]
fn trigger_then_in_progress_then_conflict() {
    let mut manager = DumpProcessManager::new();
    let info = manager.trigger("first".to_string(), 100, false).unwrap();
    assert_eq!(info.uid, "first");
    assert_eq!(info.status, DumpStatus::InProgress);
    assert_eq!(info.started_at, 100);
    assert_eq!(info.finished_at, None);
    assert_eq!(manager.status("first", false), Ok(DumpStatus::InProgress));
    assert_eq!(manager.status("first", true), Ok(DumpStatus::InProgress));
    assert_eq!(manager.trigger("second".to_string(), 101, false).unwrap_err(), DumpError::Conflict);
    assert_eq!(manager.current().unwrap().uid, "first");
}

#[test]
fn mark_done_then_restart_still_done() {
    let mut manager = DumpProcessManager::new();
    manager.trigger("d1".to_string(), 5, false).unwrap();
    assert!(manager.mark_done("d1", 9));
    assert_eq!(manager.status("d1", false), Ok(DumpStatus::Done));
    let current = manager.current().unwrap();
    assert_eq!(current.finished_at, Some(9));
    assert_eq!(current.started_at, 5);

    let restarted = DumpProcessManager::new();
    assert_eq!(restarted.status("d1", true), Ok(DumpStatus::Done));
    assert_eq!(restarted.status("d1", false), Err(DumpError::NotFound));
}

#[test]
fn new_trigger_allowed_after_done() {
    let mut manager = DumpProcessManager::new();
    manager.trigger("d1".to_string(), 5, false).unwrap();
    manager.mark_done("d1", 6);
    let info = manager.trigger("d2".to_string(), 7, false).unwrap();
    assert_eq!(info.uid, "d2");
    assert_eq!(manager.status("d2", false), Ok(DumpStatus::InProgress));
    assert_eq!(manager.status("d1", true), Ok(DumpStatus::Done));
}

#[test]
fn stale_completion_is_ignored() {
    let mut manager = DumpProcessManager::new();
    manager.trigger("d1".to_string(), 5, false).unwrap();
    assert!(!manager.mark_done("other", 6));
    assert_eq!(manager.status("d1", false), Ok(DumpStatus::InProgress));
    assert!(manager.mark_failed("d1", "disk full".to_string(), 8));
    assert_eq!(manager.status("d1", false), Ok(DumpStatus::Failed));
    assert_eq!(manager.current().unwrap().failure, Some("disk full".to_string()));
    assert!(!manager.mark_done("d1", 9));
    assert_eq!(manager.status("d1", true), Ok(DumpStatus::Failed));
}

#[test]
fn registry_update_only_forward() {
    let mut registry = DumpRegistry::new();
    assert!(registry.get().is_none());
    registry.set(DumpInfo::new("x".to_string(), 1));
    assert_eq!(registry.status_of("x"), Some(DumpStatus::InProgress));
    assert_eq!(registry.status_of("y"), None);
    assert!(registry.update_if("x", DumpStatus::Done, 2, None));
    assert!(!registry.update_if("x", DumpStatus::Failed, 3, None));
    assert_eq!(registry.status_of("x"), Some(DumpStatus::Done));
}

#[test]
fn finished_record_from_artifact() {
    let info = DumpInfo::finished("old".to_string(), 42);
    assert_eq!(info.status(), DumpStatus::Done);
    assert_eq!(info.finished_at, Some(42));
    assert!(info.has_uid("old"));
    assert!(!info.has_uid("new"));
}

#[test]
fn status_names_and_error_codes() {
    assert_eq!(DumpStatus::InProgress.as_str(), "in_progress");
    assert_eq!(DumpStatus::Done.as_str(), "done");
    assert_eq!(DumpStatus::Failed.as_str(), "failed");
    assert_eq!(DumpError::Conflict.status_code(), 409);
    assert_eq!(DumpError::NotFound.status_code(), 404);
    assert_eq!(DumpError::Internal.status_code(), 500);
    assert_eq!(DumpError::InvalidInput.status_code(), 400);
    assert_eq!(DumpError::NotFound.kind_name(), "not_found");
    assert_eq!(DumpError::Conflict.message(), "a dump is already in progress");
}

#[test]
fn repeated_uid_is_refused() {
    let mut manager = DumpProcessManager::new();
    manager.trigger("d1".to_string(), 5, false).unwrap();
    manager.mark_done("d1", 6);
    assert_eq!(manager.trigger("d1".to_string(), 7, false).unwrap_err(), DumpError::Conflict);
    assert_eq!(manager.status("d1", true), Ok(DumpStatus::Done));
    assert_eq!(manager.current().unwrap().finished_at, Some(6));
}

#[test]
fn uid_with_artifact_is_refused() {
    let mut manager = DumpProcessManager::new();
    assert_eq!(manager.trigger("old".to_string(), 5, true).unwrap_err(), DumpError::Conflict);
    assert!(manager.current().is_none());
    assert_eq!(manager.status("old", true), Ok(DumpStatus::Done));
}

#[test]
fn older_dump_resolves_through_artifact_after_new_trigger() {
    let mut manager = DumpProcessManager::new();
    manager.trigger("d1".to_string(), 5, false).unwrap();
    manager.mark_done("d1", 6);
    manager.trigger("d2".to_string(), 7, false).unwrap();
    assert_eq!(manager.status("d1", true), Ok(DumpStatus::Done));
    assert_eq!(manager.status("d2", false), Ok(DumpStatus::InProgress));
}

#[test]
fn finished_record_is_whole() {
    let info = DumpInfo::finished("old".to_string(), 42);
    assert_eq!(info.started_at, 42);
    assert_eq!(info.failure, None);
}
