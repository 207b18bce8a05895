//! Versioned schema migrations for an embedded relational store.
//!
//! A migration set is an ordered list of steps, each tagged with a positive
//! version. The store records the highest version applied so far; an upgrade
//! runs, in ascending order, exactly the steps above that record and advances
//! the record after each one.
pub mod catalog;
pub mod migrator;
pub mod model;
pub mod step;

pub use migrator::{MigrationAction, Migrator, StepOutcome};
pub use model::{lemma_upgrade_idempotent, lemma_upgrade_prefix_then_full};
pub use step::{
    lemma_duplicate_version_rejected, lemma_out_of_order_rejected, validate_migrations,
    MigrationError, MigrationKind, MigrationStep,
};
pub use catalog::{
    migration_catalog, CORE_TABLES_DESCRIPTION, CORE_TABLES_SQL, SKILL_PROGRESSION_DESCRIPTION,
    SKILL_PROGRESSION_SQL,
};
