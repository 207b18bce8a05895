use schema_migrator::{
    migration_catalog, validate_migrations, MigrationAction, MigrationError, MigrationKind,
    MigrationStep, Migrator, StepOutcome, CORE_TABLES_SQL, SKILL_PROGRESSION_SQL,
};

fn step(version: u64) -> MigrationStep {
    MigrationStep {
        version,
        description: format!("step {}", version),
        script: format!("SELECT {};", version),
        kind: MigrationKind::Up,
    }
}

fn steps(versions: &[u64]) -> Vec<MigrationStep> {
    versions.iter().map(|v| step(*v)).collect()
}

/// Drives an upgrade in which every step succeeds; returns the versions run
/// and the final record.
fn run_all(set: &Vec<MigrationStep>, recorded: u64) -> (Vec<u64>, u64) {
    let mut m = Migrator::new(set, recorded).unwrap();
    let mut ran = Vec::new();
    loop {
        match m.next_action() {
            MigrationAction::Execute { index, version } => {
                assert_eq!(set[index].version, version);
                ran.push(version);
                m.record_outcome(StepOutcome::Applied).unwrap();
            }
            MigrationAction::Finished { version } => return (ran, version),
            MigrationAction::Halted { .. } => panic!("no step fails here"),
        }
    }
}

#[test]
fn ordered_set_is_valid() {
    assert!(validate_migrations(&steps(&[1, 2, 5, 9])).is_ok());
    assert!(validate_migrations(&steps(&[])).is_ok());
}

#[test]
fn duplicate_version_is_rejected() {
    let r = validate_migrations(&steps(&[1, 2, 2, 3]));
    assert!(matches!(r, Err(MigrationError::InvalidMigrationSet { position: 2 })));
    let m = Migrator::new(&steps(&[1, 1]), 0);
    assert!(matches!(m, Err(MigrationError::InvalidMigrationSet { position: 1 })));
}

#[test]
fn out_of_order_version_is_rejected() {
    let r = validate_migrations(&steps(&[1, 3, 2]));
    assert!(matches!(r, Err(MigrationError::InvalidMigrationSet { position: 2 })));
    let m = Migrator::new(&steps(&[2, 1]), 0);
    assert!(matches!(m, Err(MigrationError::InvalidMigrationSet { position: 1 })));
}

#[test]
fn zero_version_is_rejected() {
    let r = validate_migrations(&steps(&[0, 1]));
    assert!(matches!(r, Err(MigrationError::InvalidMigrationSet { position: 0 })));
}

#[test]
fn upgrade_from_empty_runs_every_step_in_order() {
    let (ran, record) = run_all(&steps(&[1, 2, 5]), 0);
    assert_eq!(ran, vec![1, 2, 5]);
    assert_eq!(record, 5);
}

#[test]
fn upgrade_twice_is_upgrade_once() {
    let set = steps(&[1, 2, 5]);
    let (_, record) = run_all(&set, 0);
    let (ran, again) = run_all(&set, record);
    assert!(ran.is_empty());
    assert_eq!(again, record);
}

#[test]
fn prefix_then_full_set_runs_only_the_suffix() {
    let set = steps(&[1, 2, 4, 7]);
    let prefix = steps(&[1, 2]);
    let (first, record) = run_all(&prefix, 0);
    assert_eq!(first, vec![1, 2]);
    assert_eq!(record, 2);
    let (second, last) = run_all(&set, record);
    assert_eq!(second, vec![4, 7]);
    assert_eq!(last, 7);
}

#[test]
fn empty_set_finishes_at_the_record() {
    let m = Migrator::new(&steps(&[]), 3).unwrap();
    assert_eq!(m.next_action(), MigrationAction::Finished { version: 3 });
}

#[test]
fn failed_step_halts_and_keeps_the_record() {
    let set = steps(&[1, 2, 3]);
    let mut m = Migrator::new(&set, 0).unwrap();
    assert_eq!(m.next_action(), MigrationAction::Execute { index: 0, version: 1 });
    m.record_outcome(StepOutcome::Applied).unwrap();
    assert_eq!(m.next_action(), MigrationAction::Execute { index: 1, version: 2 });
    let r = m.record_outcome(StepOutcome::Failed { cause: "no such table".to_string() });
    match r {
        Err(MigrationError::MigrationFailed { version, cause }) => {
            assert_eq!(version, 2);
            assert_eq!(cause, "no such table");
        }
        other => panic!("unexpected {:?}", other),
    }
    assert_eq!(m.recorded_version(), 1);
    assert_eq!(m.next_action(), MigrationAction::Halted { version: 1 });
}

#[test]
fn record_between_versions_resumes_above_it() {
    let (ran, record) = run_all(&steps(&[2, 4, 6]), 3);
    assert_eq!(ran, vec![4, 6]);
    assert_eq!(record, 6);
}

#[test]
fn catalog_holds_two_ordered_steps() {
    let c = migration_catalog();
    assert_eq!(c.len(), 2);
    assert_eq!(c[0].version, 1);
    assert_eq!(c[1].version, 2);
    assert_eq!(c[0].script, CORE_TABLES_SQL);
    assert_eq!(c[1].script, SKILL_PROGRESSION_SQL);
    assert_eq!(c[0].description, "create core tables");
    assert_eq!(c[1].description, "add skill progression system tables");
    assert!(c.iter().all(|s| s.kind == MigrationKind::Up));
    assert!(validate_migrations(&c).is_ok());
}
