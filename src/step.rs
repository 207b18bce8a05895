use vstd::prelude::*;

verus! {

/// Direction of a migration step. Only forward upgrades exist.
#[derive(Clone, Copy, Debug, PartialEq, Eq, Structural)]
pub enum MigrationKind {
    Up,
}

/// One versioned unit of schema evolution.
#[derive(Clone, Debug)]
pub struct MigrationStep {
    /// Positive, unique within a set, strictly increasing along the set.
    pub version: u64,
    /// Human-readable label; never interpreted.
    pub description: String,
    /// Statements executed verbatim against the store.
    pub script: String,
    pub kind: MigrationKind,
}

/// Why an upgrade could not bring the store to the latest version.
#[derive(Clone, Debug)]
pub enum MigrationError {
    /// The store could not be opened or created.
    StoreUnavailable { cause: String },
    /// The step at `position` repeats, undercuts or zeroes the version order.
    InvalidMigrationSet { position: usize },
    /// The script of step `version` raised an error; the record was left at
    /// the last step applied before it.
    MigrationFailed { version: u64, cause: String },
}

/// The versions of a migration set, in the order of the set.
pub open spec fn versions_of(steps: Seq<MigrationStep>) -> Seq<u64> {
    steps.map_values(|s: MigrationStep| s.version)
}

/// Every version is positive and each is greater than all before it.
pub open spec fn ordered_versions(vs: Seq<u64>) -> bool {
    &&& forall|i: int| 0 <= i < vs.len() ==> vs[i] > 0
    &&& forall|i: int, j: int| 0 <= i < j < vs.len() ==> vs[i] < vs[j]
}

/// The first position at which `vs` breaks the order: a zero version, or one
/// not above its predecessor. Meaningful only when the order is broken.
pub open spec fn first_disorder(vs: Seq<u64>, p: int) -> bool {
    &&& 0 <= p < vs.len()
    &&& (vs[p] == 0 || (p > 0 && vs[p] <= vs[p - 1]))
    &&& ordered_versions(vs.take(p))
}

/// Checks that a migration set is fit to run: every version positive and
/// strictly above the one before it. Fails with `InvalidMigrationSet` at the
/// first step that breaks this.
pub fn validate_migrations(steps: &Vec<MigrationStep>) -> (r: Result<(), MigrationError>)
    ensures
        r is Ok <==> ordered_versions(versions_of(steps@)),
        r matches Err(e) ==> (e matches MigrationError::InvalidMigrationSet { position }
            && first_disorder(versions_of(steps@), position as int)),
{
    let ghost vs = versions_of(steps@);
    let mut i: usize = 0;
    while i < steps.len()
        invariant
            i <= steps.len(),
            vs == versions_of(steps@),
            forall|a: int| 0 <= a < i ==> vs[a] > 0,
            forall|a: int, b: int| 0 <= a < b < i ==> vs[a] < vs[b],
        decreases steps.len() - i,
    {
        let v = steps[i].version;
        assert(vs[i as int] == v);
        if i > 0 {
            assert(vs[i - 1] == steps[i - 1].version);
        }
        if v == 0 || (i > 0 && v <= steps[i - 1].version) {
            assert(ordered_versions(vs.take(i as int))) by {
                assert forall|a: int, b: int| 0 <= a < b < i implies #[trigger] vs.take(
                    i as int,
                )[a] < #[trigger] vs.take(i as int)[b] by {
                    assert(vs[a] < vs[b]);
                }
            }
            return Err(MigrationError::InvalidMigrationSet { position: i });
        }
        assert forall|a: int, b: int| 0 <= a < b < i + 1 implies #[trigger] vs[a] < #[trigger] vs[b] by {
            if b == i && a < i - 1 {
                assert(vs[a] < vs[i - 1]);
            }
        }
        i = i + 1;
    }
    Ok(())
}

/// A set in which two steps share a version is not fit to run, so
/// `validate_migrations` and `Migrator::new` reject it.
pub proof fn lemma_duplicate_version_rejected(steps: Seq<MigrationStep>, i: int, j: int)
    requires
        0 <= i < j < steps.len(),
        steps[i].version == steps[j].version,
    ensures
        !ordered_versions(versions_of(steps)),
{
    assert(versions_of(steps)[i] == versions_of(steps)[j]);
}

/// A set in which a later step has a lower version than an earlier one is not
/// fit to run, so `validate_migrations` and `Migrator::new` reject it.
pub proof fn lemma_out_of_order_rejected(steps: Seq<MigrationStep>, i: int, j: int)
    requires
        0 <= i < j < steps.len(),
        steps[i].version > steps[j].version,
    ensures
        !ordered_versions(versions_of(steps)),
{
    assert(versions_of(steps)[i] > versions_of(steps)[j]);
}

} // verus!
