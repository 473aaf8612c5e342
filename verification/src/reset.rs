use vstd::prelude::*;

use crate::catalog::{catalog_well_formed, MigrationStep};
use crate::errors::{MigrationError, ResetError};
use crate::runner::{
    forward_versions, lemma_fresh_run_applies_all, plan_matches, step_pending, versions_applied,
};

verus! {

/// The next piece of outside work a reset run asks its host to perform.
/// A reset is destructive and irreversible: it must only ever run on an
/// explicit host-triggered command, never automatically.
#[derive(Clone, Copy, PartialEq, Eq, Structural, Debug)]
pub enum ResetAction {
    /// Remove the configuration root directory with everything under it:
    /// the primary database file together with its write-ahead-log and
    /// shared-memory companions.
    RemoveRootDir,
    /// Recreate the configuration root as an empty directory.
    CreateRootDir,
    /// Create a fresh, empty database file at the primary path.
    CreateDatabaseFile,
    /// Run the full migration catalog against the fresh database.
    RunMigrations,
}

/// Where a reset run stands.
#[derive(Clone, Copy, PartialEq, Eq, Structural, Debug)]
pub enum ResetStage {
    RemovingRootDir,
    CreatingRootDir,
    CreatingDatabaseFile,
    RunningMigrations,
    Complete,
    Failed,
}

/// One reset run. The host performs one action at a time and reports its
/// outcome; the operation decides what each outcome means. Filesystem
/// trouble while wiping or recreating the root directory — a directory
/// already absent above all — is tolerated and only counted as a warning;
/// a failure to create the fresh database or to replay the catalog ends
/// the run with a `ResetError`, leaving the filesystem in whatever partial
/// state resulted. A failed reset is retried whole, never rolled back.
pub struct ResetOp {
    stage: ResetStage,
    remove_warned: bool,
    create_warned: bool,
}

impl ResetOp {
    /// Where the run stands.
    pub closed spec fn stage(self) -> ResetStage {
        self.stage
    }

    /// How many filesystem steps failed but were tolerated (at most one
    /// for the removal, one for the recreation).
    pub closed spec fn warnings(self) -> int {
        (if self.remove_warned {
            1int
        } else {
            0int
        }) + (if self.create_warned {
            1int
        } else {
            0int
        })
    }

    /// Stages the run has not reached yet carry no warning marks.
    pub closed spec fn wf(self) -> bool {
        &&& self.stage is RemovingRootDir ==> !self.remove_warned && !self.create_warned
        &&& self.stage is CreatingRootDir ==> !self.create_warned
    }

    /// Starts a reset run at the wipe.
    pub fn begin() -> (op: ResetOp)
        ensures
            op.wf(),
            op.stage() is RemovingRootDir,
            op.warnings() == 0,
    {
        ResetOp { stage: ResetStage::RemovingRootDir, remove_warned: false, create_warned: false }
    }

    /// The outside work to perform next; nothing once the run has ended.
    pub fn next_action(&self) -> (a: Option<ResetAction>)
        ensures
            a == match self.stage() {
                ResetStage::RemovingRootDir => Some(ResetAction::RemoveRootDir),
                ResetStage::CreatingRootDir => Some(ResetAction::CreateRootDir),
                ResetStage::CreatingDatabaseFile => Some(ResetAction::CreateDatabaseFile),
                ResetStage::RunningMigrations => Some(ResetAction::RunMigrations),
                ResetStage::Complete => None::<ResetAction>,
                ResetStage::Failed => None::<ResetAction>,
            },
    {
        match self.stage {
            ResetStage::RemovingRootDir => Some(ResetAction::RemoveRootDir),
            ResetStage::CreatingRootDir => Some(ResetAction::CreateRootDir),
            ResetStage::CreatingDatabaseFile => Some(ResetAction::CreateDatabaseFile),
            ResetStage::RunningMigrations => Some(ResetAction::RunMigrations),
            ResetStage::Complete => None,
            ResetStage::Failed => None,
        }
    }

    /// Records the outcome of removing the root directory. Failure — above
    /// all a directory already absent, an acceptable pre-reset state — is
    /// never fatal: it is counted as a warning and the run moves on.
    pub fn removed_root(&mut self, ok: bool)
        requires
            old(self).wf(),
            old(self).stage() is RemovingRootDir,
        ensures
            final(self).wf(),
            final(self).stage() is CreatingRootDir,
            final(self).warnings() == old(self).warnings() + if ok {
                0int
            } else {
                1int
            },
    {
        self.stage = ResetStage::CreatingRootDir;
        if !ok {
            self.remove_warned = true;
        }
    }

    /// Records the outcome of recreating the empty root directory. Failure
    /// is a warning, not fatal: the database file creation that follows
    /// decides whether the location is usable.
    pub fn created_root(&mut self, ok: bool)
        requires
            old(self).wf(),
            old(self).stage() is CreatingRootDir,
        ensures
            final(self).wf(),
            final(self).stage() is CreatingDatabaseFile,
            final(self).warnings() == old(self).warnings() + if ok {
                0int
            } else {
                1int
            },
    {
        self.stage = ResetStage::CreatingDatabaseFile;
        if !ok {
            self.create_warned = true;
        }
    }

    /// Records the outcome of creating the fresh database file. A failure
    /// ends the run: the error is reported and the filesystem stays in its
    /// partial state.
    pub fn created_database(&mut self, result: Result<(), String>) -> (e: Option<ResetError>)
        requires
            old(self).stage() is CreatingDatabaseFile,
        ensures
            final(self).wf(),
            final(self).warnings() == old(self).warnings(),
            result is Ok ==> final(self).stage() is RunningMigrations && e is None,
            result matches Err(cause) ==> final(self).stage() is Failed && e == Some(
                ResetError::CreateFailed { cause },
            ),
    {
        match result {
            Ok(()) => {
                self.stage = ResetStage::RunningMigrations;
                None
            },
            Err(cause) => {
                self.stage = ResetStage::Failed;
                Some(ResetError::CreateFailed { cause })
            },
        }
    }

    /// Records what the migration run against the fresh database returned:
    /// on success the reset is complete and reports the applied count, on
    /// failure it ends with the migration error wrapped.
    pub fn migrations_finished(&mut self, result: Result<u64, MigrationError>) -> (r: Result<
        u64,
        ResetError,
    >)
        requires
            old(self).stage() is RunningMigrations,
        ensures
            final(self).wf(),
            final(self).warnings() == old(self).warnings(),
            result matches Ok(n) ==> final(self).stage() is Complete && r == Ok::<
                u64,
                ResetError,
            >(n),
            result matches Err(error) ==> final(self).stage() is Failed && r == Err::<
                u64,
                ResetError,
            >(ResetError::MigrationFailed { error }),
    {
        match result {
            Ok(n) => {
                self.stage = ResetStage::Complete;
                Ok(n)
            },
            Err(error) => {
                self.stage = ResetStage::Failed;
                Err(ResetError::MigrationFailed { error })
            },
        }
    }

    /// How many filesystem steps failed but were tolerated in this run.
    pub fn warning_count(&self) -> (n: u64)
        ensures
            n == self.warnings(),
    {
        let mut n: u64 = 0;
        if self.remove_warned {
            n = n + 1;
        }
        if self.create_warned {
            n = n + 1;
        }
        n
    }
}

/// Law (reset completeness): a successful reset replays the full catalog
/// against a fresh, empty database, so afterwards the applied versions are
/// exactly the catalog's forward versions — nothing recorded before the
/// wipe survives — and the bookkeeping maximum is the version of the last
/// planned step, the catalog's greatest forward version.
pub proof fn lemma_reset_completeness(catalog: Seq<MigrationStep>, plan: Seq<usize>)
    requires
        catalog_well_formed(catalog),
        plan_matches(catalog, None, plan),
    ensures
        versions_applied(catalog, plan, plan.len() as int) =~= forward_versions(catalog),
        plan.len() == 0 ==> forward_versions(catalog) =~= Set::<u64>::empty(),
        plan.len() > 0 ==> forall|v: u64|
            forward_versions(catalog).contains(v) ==> v <= catalog[
                #[trigger] plan[plan.len() - 1] as int
            ].version,
        plan.len() > 0 ==> forward_versions(catalog).contains(
            catalog[plan[plan.len() - 1] as int].version,
        ),
{
    lemma_fresh_run_applies_all(catalog, plan);
    if plan.len() == 0 {
        assert forall|v: u64| !forward_versions(catalog).contains(v) by {
            if forward_versions(catalog).contains(v) {
                let i = choose|i: int|
                    0 <= i < catalog.len() && (#[trigger] catalog[i]).kind is Forward
                        && catalog[i].version == v;
                assert(step_pending(catalog[i], None));
            }
        }
    } else {
        let last = plan.len() - 1;
        assert forall|v: u64| forward_versions(catalog).contains(v)
            implies v <= catalog[plan[last] as int].version by {
            let i = choose|i: int|
                0 <= i < catalog.len() && (#[trigger] catalog[i]).kind is Forward
                    && catalog[i].version == v;
            assert(step_pending(catalog[i], None));
            let k = choose|k: int| 0 <= k < plan.len() && plan[k] == i;
            if k < last {
                assert(plan[k] < plan[last]);
                assert(catalog[plan[k] as int].version < catalog[plan[last] as int].version);
            }
        }
        assert(step_pending(catalog[plan[last] as int], None));
    }
}

} // verus!
