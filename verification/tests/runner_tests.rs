use wbr_migrations::catalog::{MigrationKind, MigrationStep};
use wbr_migrations::errors::MigrationError;
use wbr_migrations::runner::{
    bookkeeping_table_ddl, max_applied_version_query, record_applied_statement, Runner,
};

fn step(version: u64, kind: MigrationKind, statement: &str) -> MigrationStep {
    MigrationStep {
        version,
        description: format!("step_{}", version),
        kind,
        statement: statement.to_string(),
    }
}

/// Drives a run to completion, as the host would, pretending every
/// statement succeeds; returns the versions applied in order.
fn run_all(mut runner: Runner) -> (u64, Vec<u64>) {
    while !runner.is_done() {
        runner.step_succeeded();
    }
    let applied = runner.applied_count() as u64;
    (applied, runner.completed_versions())
}

#[test]
fn scenario_fresh_apply_then_idempotent_then_incremental() {
    let catalog = vec![step(
        1,
        MigrationKind::Forward,
        "create table book(bookID TEXT PRIMARY KEY, title TEXT NOT NULL)",
    )];

    // Starting from an empty file, apply runs exactly the one step.
    let mut runner = Runner::start(catalog, None).unwrap();
    assert!(!runner.is_done());
    assert_eq!(runner.remaining(), 1);
    assert_eq!(runner.current().version, 1);
    assert!(runner.current().statement.contains("create table book"));
    runner.step_succeeded();
    assert!(runner.is_done());
    assert_eq!(runner.applied_count(), 1);
    assert_eq!(runner.completed_versions(), vec![1]);

    // A second apply with the same catalog is a no-op.
    let catalog = vec![step(
        1,
        MigrationKind::Forward,
        "create table book(bookID TEXT PRIMARY KEY, title TEXT NOT NULL)",
    )];
    let runner = Runner::start(catalog, Some(1)).unwrap();
    assert!(runner.is_done());
    assert_eq!(runner.applied_count(), 0);

    // Adding a higher-version step and applying again runs only that step.
    let catalog = vec![
        step(
            1,
            MigrationKind::Forward,
            "create table book(bookID TEXT PRIMARY KEY, title TEXT NOT NULL)",
        ),
        step(2, MigrationKind::Forward, "alter table book add column coverUrl TEXT NULL"),
    ];
    let mut runner = Runner::start(catalog, Some(1)).unwrap();
    assert_eq!(runner.remaining(), 1);
    assert_eq!(runner.current().version, 2);
    assert_eq!(runner.current().statement, "alter table book add column coverUrl TEXT NULL");
    runner.step_succeeded();
    assert!(runner.is_done());
    assert_eq!(runner.applied_count(), 1);
    assert_eq!(runner.completed_versions(), vec![2]);
}

#[test]
fn malformed_catalog_fails_before_any_step() {
    let catalog = vec![
        step(4, MigrationKind::Forward, "create table a(x)"),
        step(4, MigrationKind::Forward, "create table b(x)"),
    ];
    assert_eq!(
        Runner::start(catalog, None).err(),
        Some(MigrationError::CatalogError)
    );

    let catalog = vec![
        step(2, MigrationKind::Forward, "create table a(x)"),
        step(1, MigrationKind::Forward, "create table b(x)"),
    ];
    assert_eq!(
        Runner::start(catalog, Some(7)).err(),
        Some(MigrationError::CatalogError)
    );
}

#[test]
fn step_failure_keeps_earlier_steps_and_reports_the_version() {
    let catalog = vec![
        step(1, MigrationKind::Forward, "create table a(x)"),
        step(2, MigrationKind::Forward, "create tabel b(x)"),
        step(3, MigrationKind::Forward, "create table c(x)"),
    ];
    let mut runner = Runner::start(catalog, None).unwrap();
    assert_eq!(runner.remaining(), 3);
    runner.step_succeeded();
    assert_eq!(runner.current().version, 2);
    let error = runner.step_failed("near \"tabel\": syntax error".to_string());
    assert_eq!(
        error,
        MigrationError::StepFailure {
            version: 2,
            cause: "near \"tabel\": syntax error".to_string(),
        }
    );
    // The run stopped at the failure: only version 1 was committed, and
    // version 3 was never attempted.
    assert_eq!(runner.applied_count(), 1);
    assert_eq!(runner.completed_versions(), vec![1]);
}

#[test]
fn backward_steps_are_never_applied() {
    let catalog = vec![
        step(1, MigrationKind::Forward, "create table a(x)"),
        step(2, MigrationKind::Backward, "drop table a"),
        step(3, MigrationKind::Forward, "create table c(x)"),
    ];
    let runner = Runner::start(catalog, None).unwrap();
    let (applied, versions) = run_all(runner);
    assert_eq!(applied, 2);
    assert_eq!(versions, vec![1, 3]);
}

#[test]
fn empty_catalog_applies_nothing() {
    let runner = Runner::start(Vec::new(), None).unwrap();
    assert!(runner.is_done());
    assert_eq!(runner.applied_count(), 0);
}

#[test]
fn bookkeeping_statements_are_fixed() {
    assert_eq!(
        bookkeeping_table_ddl(),
        "CREATE TABLE IF NOT EXISTS WBR_migrations (version BIGINT PRIMARY KEY, appliedAt DATETIME DEFAULT CURRENT_TIMESTAMP)"
    );
    assert_eq!(max_applied_version_query(), "SELECT MAX(version) FROM WBR_migrations");
    assert_eq!(record_applied_statement(), "INSERT INTO WBR_migrations (version) VALUES (?)");
}
