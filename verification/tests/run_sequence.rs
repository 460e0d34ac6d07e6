use go_installer::InstallError;
use go_installer::RunAction;
use go_installer::RunCoordinator;
use go_installer::RunPhase;

fn drive(results: &[Result<(), InstallError>]) -> (Vec<RunAction>, RunCoordinator) {
    // Performs a whole run, feeding the coordinator one canned result per
    // action it asks for, and records the actions in order.
    let mut coordinator = RunCoordinator::new();
    let mut actions = Vec::new();
    let mut i = 0;
    loop {
        let action = coordinator.next_action();
        actions.push(action);
        if matches!(action, RunAction::Finish) {
            return (actions, coordinator);
        }
        coordinator.record_step(results[i].clone());
        i += 1;
    }
}

#[test]
fn a_clean_run_performs_every_step_in_order() {
    let (actions, coordinator) = drive(&[Ok(()), Ok(()), Ok(()), Ok(())]);
    assert_eq!(
        actions,
        vec![
            RunAction::FetchArchive,
            RunAction::RunTransaction,
            RunAction::ExportPath,
            RunAction::RemoveArchive,
            RunAction::Finish,
        ]
    );
    assert!(coordinator.succeeded());
    assert_eq!(coordinator.phase, RunPhase::Finished);
}

#[test]
fn a_failed_fetch_still_removes_the_archive() {
    let failure = InstallError::Network("connection refused".to_string());
    let (actions, coordinator) = drive(&[Err(failure.clone()), Ok(())]);
    assert_eq!(
        actions,
        vec![RunAction::FetchArchive, RunAction::RemoveArchive, RunAction::Finish]
    );
    assert!(!coordinator.succeeded());
    assert_eq!(coordinator.failure, Some(failure));
}

#[test]
fn a_failed_transaction_still_removes_the_archive() {
    let failure = InstallError::Filesystem("permission denied".to_string());
    let (actions, coordinator) = drive(&[Ok(()), Err(failure.clone()), Ok(())]);
    assert_eq!(
        actions,
        vec![
            RunAction::FetchArchive,
            RunAction::RunTransaction,
            RunAction::RemoveArchive,
            RunAction::Finish,
        ]
    );
    assert_eq!(coordinator.failure, Some(failure));
}

#[test]
fn a_failed_export_still_removes_the_archive() {
    let failure = InstallError::Filesystem("profile not found".to_string());
    let (actions, coordinator) = drive(&[Ok(()), Ok(()), Err(failure.clone()), Ok(())]);
    assert_eq!(
        actions,
        vec![
            RunAction::FetchArchive,
            RunAction::RunTransaction,
            RunAction::ExportPath,
            RunAction::RemoveArchive,
            RunAction::Finish,
        ]
    );
    assert_eq!(coordinator.failure, Some(failure));
}

#[test]
fn a_cleanup_failure_does_not_change_a_successful_outcome() {
    let cleanup_failure = InstallError::Filesystem("file already gone".to_string());
    let (_, coordinator) = drive(&[Ok(()), Ok(()), Ok(()), Err(cleanup_failure)]);
    assert!(coordinator.succeeded());
    assert_eq!(coordinator.failure, None);
}

#[test]
fn a_cleanup_failure_does_not_mask_an_earlier_failure() {
    let earlier = InstallError::ArchiveFormat("corrupt gzip stream".to_string());
    let cleanup_failure = InstallError::Filesystem("file busy".to_string());
    let (_, coordinator) = drive(&[Ok(()), Err(earlier.clone()), Err(cleanup_failure)]);
    assert_eq!(coordinator.failure, Some(earlier));
}

#[test]
fn the_first_failure_is_the_one_reported() {
    let first = InstallError::Network("timeout".to_string());
    let (_, coordinator) = drive(&[Err(first.clone()), Err(InstallError::Filesystem("x".to_string()))]);
    assert_eq!(coordinator.failure, Some(first));
}

#[test]
fn error_messages_carry_their_cause() {
    assert_eq!(
        InstallError::Filesystem("permission denied".to_string()).message(),
        "Filesystem error: permission denied"
    );
    assert_eq!(
        InstallError::Network("timeout".to_string()).message(),
        "Network error: timeout"
    );
    assert_eq!(
        InstallError::ArchiveFormat("bad header".to_string()).message(),
        "Archive error: bad header"
    );
}
