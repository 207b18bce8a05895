use vstd::prelude::*;
use crate::model::{lemma_pending_is_suffix, pending_versions, splits_at, upgraded_version};
use crate::step::{
    first_disorder, ordered_versions, validate_migrations, versions_of, MigrationError,
    MigrationStep,
};

verus! {

/// What the host must do next to carry an upgrade on.
#[derive(Clone, Debug, PartialEq, Eq, Structural)]
pub enum MigrationAction {
    /// Run the script of the step at `index` of the set, as one transaction.
    Execute { index: usize, version: u64 },
    /// Every step is applied; the store is at `version`.
    Finished { version: u64 },
    /// A step failed; the store stays at `version` and must not be used.
    Halted { version: u64 },
}

/// How the host's execution of a step's script ended.
#[derive(Clone, Debug)]
pub enum StepOutcome {
    /// The script committed.
    Applied,
    /// The script raised an error, given in words.
    Failed { cause: String },
}

/// An upgrade in progress: the versions of a validated migration set, the
/// record of the store, and the next step to run.
pub struct Migrator {
    versions: Vec<u64>,
    recorded: u64,
    next: usize,
    halted: bool,
}

impl Migrator {
    /// The versions of the set being applied.
    pub closed spec fn versions(&self) -> Seq<u64> {
        self.versions@
    }

    /// The version the store records as applied.
    pub closed spec fn recorded(&self) -> u64 {
        self.recorded
    }

    /// The position in the set of the next step to run.
    pub closed spec fn next(&self) -> int {
        self.next as int
    }

    /// Whether a step has failed.
    pub closed spec fn halted(&self) -> bool {
        self.halted
    }

    /// The set is ordered, the steps before `next` are at or below the record
    /// and those from `next` on are above it.
    pub open spec fn wf(&self) -> bool {
        &&& ordered_versions(self.versions())
        &&& splits_at(self.versions(), self.recorded(), self.next())
    }

    /// The versions still to run.
    pub open spec fn pending(&self) -> Seq<u64> {
        pending_versions(self.versions(), self.recorded())
    }

    /// Starts an upgrade of a store at `recorded` with `steps`. Fails with
    /// `InvalidMigrationSet`, before any step runs, where the set is not in
    /// strictly increasing order of positive versions.
    pub fn new(steps: &Vec<MigrationStep>, recorded: u64) -> (r: Result<Migrator, MigrationError>)
        ensures
            r is Ok <==> ordered_versions(versions_of(steps@)),
            r matches Err(e) ==> (e matches MigrationError::InvalidMigrationSet { position }
                && first_disorder(versions_of(steps@), position as int)),
            r matches Ok(m) ==> {
                &&& m.wf()
                &&& m.versions() == versions_of(steps@)
                &&& m.recorded() == recorded
                &&& !m.halted()
                &&& m.pending() == versions_of(steps@).skip(m.next())
            },
    {
        match validate_migrations(steps) {
            Err(e) => {
                return Err(e);
            },
            Ok(()) => {},
        }
        let ghost vs = versions_of(steps@);
        let mut versions: Vec<u64> = Vec::new();
        let mut next: usize = 0;
        let mut i: usize = 0;
        while i < steps.len()
            invariant
                i <= steps.len(),
                vs == versions_of(steps@),
                ordered_versions(vs),
                versions@ == vs.take(i as int),
                next <= i,
                forall|a: int| 0 <= a < next ==> #[trigger] vs[a] <= recorded,
                forall|a: int| next <= a < i ==> #[trigger] vs[a] > recorded,
            decreases steps.len() - i,
        {
            let v = steps[i].version;
            assert(vs[i as int] == v);
            if v <= recorded {
                assert forall|a: int| 0 <= a < i + 1 implies #[trigger] vs[a] <= recorded by {
                    if a < i {
                        assert(vs[a] < vs[i as int]);
                    }
                }
                next = i + 1;
            }
            versions.push(v);
            assert(versions@ =~= vs.take(i + 1));
            i = i + 1;
        }
        assert(versions@ =~= vs);
        let m = Migrator { versions, recorded, next, halted: false };
        proof {
            lemma_pending_is_suffix(vs, recorded, next as int);
        }
        Ok(m)
    }

    /// The next thing the host must do.
    pub fn next_action(&self) -> (r: MigrationAction)
        requires
            self.wf(),
        ensures
            self.halted() ==> r == (MigrationAction::Halted { version: self.recorded() }),
            !self.halted() && self.pending().len() == 0 ==> r == (MigrationAction::Finished {
                version: self.recorded(),
            }),
            !self.halted() && self.pending().len() > 0 ==> r == (MigrationAction::Execute {
                index: self.next() as usize,
                version: self.pending()[0],
            }),
            r matches MigrationAction::Execute { index, version } ==> index == self.next()
                && self.versions()[index as int] == version,
    {
        proof {
            lemma_pending_is_suffix(self.versions(), self.recorded(), self.next());
        }
        if self.halted {
            MigrationAction::Halted { version: self.recorded }
        } else if self.next < self.versions.len() {
            MigrationAction::Execute { index: self.next, version: self.versions[self.next] }
        } else {
            MigrationAction::Finished { version: self.recorded }
        }
    }

    /// Takes in how the step named by `next_action` ended. On success the
    /// record advances to that step's version and the next pending step comes
    /// up; on failure the record stays, the upgrade halts, and the error names
    /// the failed version and its cause.
    pub fn record_outcome(&mut self, outcome: StepOutcome) -> (r: Result<(), MigrationError>)
        requires
            old(self).wf(),
            !old(self).halted(),
            old(self).pending().len() > 0,
        ensures
            final(self).wf(),
            final(self).versions() == old(self).versions(),
            outcome is Applied ==> {
                &&& r is Ok
                &&& !final(self).halted()
                &&& final(self).recorded() == old(self).pending()[0]
                &&& final(self).pending() == old(self).pending().drop_first()
                &&& upgraded_version(final(self).versions(), final(self).recorded())
                    == upgraded_version(old(self).versions(), old(self).recorded())
            },
            outcome matches StepOutcome::Failed { cause } ==> {
                &&& r == Err::<(), MigrationError>(MigrationError::MigrationFailed {
                    version: old(self).pending()[0],
                    cause,
                })
                &&& final(self).halted()
                &&& final(self).recorded() == old(self).recorded()
                &&& final(self).pending() == old(self).pending()
            },
    {
        let ghost vs = self.versions@;
        proof {
            lemma_pending_is_suffix(vs, self.recorded, self.next as int);
        }
        let v = self.versions[self.next];
        let len = self.versions.len();
        assert(self.next < len);
        match outcome {
            StepOutcome::Applied => {
                let ghost k = self.next as int;
                proof {
                    assert forall|a: int| 0 <= a < k + 1 implies #[trigger] vs[a] <= v by {
                        if a < k {
                            assert(vs[a] < vs[k]);
                        }
                    }
                    assert forall|a: int| k + 1 <= a < vs.len() implies #[trigger] vs[a] > v by {
                        assert(vs[k] < vs[a]);
                    }
                }
                self.recorded = v;
                self.next = self.next + 1;
                proof {
                    lemma_pending_is_suffix(vs, v, k + 1);
                    assert(vs.skip(k + 1) =~= vs.skip(k).drop_first());
                }
                Ok(())
            },
            StepOutcome::Failed { cause } => {
                self.halted = true;
                Err(MigrationError::MigrationFailed { version: v, cause })
            },
        }
    }

    /// The version the store records as applied.
    pub fn recorded_version(&self) -> (r: u64)
        ensures
            r == self.recorded(),
    {
        self.recorded
    }
}

} // verus!
