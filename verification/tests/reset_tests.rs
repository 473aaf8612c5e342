use wbr_migrations::errors::{MigrationError, ResetError};
use wbr_migrations::reset::{ResetAction, ResetOp};

#[test]
fn reset_happy_path_runs_all_four_actions_in_order() {
    let mut op = ResetOp::begin();
    assert_eq!(op.next_action(), Some(ResetAction::RemoveRootDir));
    op.removed_root(true);
    assert_eq!(op.next_action(), Some(ResetAction::CreateRootDir));
    op.created_root(true);
    assert_eq!(op.next_action(), Some(ResetAction::CreateDatabaseFile));
    assert_eq!(op.created_database(Ok(())), None);
    assert_eq!(op.next_action(), Some(ResetAction::RunMigrations));
    assert_eq!(op.migrations_finished(Ok(1)), Ok(1));
    assert_eq!(op.next_action(), None);
    assert_eq!(op.warning_count(), 0);
}

#[test]
fn reset_tolerates_filesystem_trouble_during_the_wipe() {
    let mut op = ResetOp::begin();
    // The root directory was already absent: an acceptable pre-reset state.
    op.removed_root(false);
    assert_eq!(op.next_action(), Some(ResetAction::CreateRootDir));
    op.created_root(false);
    // Both failures were warnings; the run goes on to create the database.
    assert_eq!(op.next_action(), Some(ResetAction::CreateDatabaseFile));
    assert_eq!(op.warning_count(), 2);
}

#[test]
fn reset_fails_when_the_fresh_database_cannot_be_created() {
    let mut op = ResetOp::begin();
    op.removed_root(true);
    op.created_root(true);
    let e = op.created_database(Err("disk full".to_string()));
    assert_eq!(e, Some(ResetError::CreateFailed { cause: "disk full".to_string() }));
    assert_eq!(op.next_action(), None);
}

#[test]
fn reset_fails_when_the_catalog_replay_fails() {
    let mut op = ResetOp::begin();
    op.removed_root(true);
    op.created_root(true);
    assert_eq!(op.created_database(Ok(())), None);
    let failure = MigrationError::StepFailure { version: 1, cause: "locked".to_string() };
    assert_eq!(
        op.migrations_finished(Err(failure.clone())),
        Err(ResetError::MigrationFailed { error: failure })
    );
    assert_eq!(op.next_action(), None);
}
