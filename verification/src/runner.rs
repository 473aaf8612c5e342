use vstd::prelude::*;
use vstd::string::StringExecFns;

use crate::catalog::{catalog_well_formed, validate, MigrationKind, MigrationStep};
use crate::errors::MigrationError;

verus! {

/// The idempotent statement that ensures the bookkeeping table exists:
/// one row per applied step, carrying its version and the time it was
/// applied. The host runs it before reading the bookkeeping maximum.
pub fn bookkeeping_table_ddl() -> (s: String)
    ensures
        s@
            == "CREATE TABLE IF NOT EXISTS WBR_migrations (version BIGINT PRIMARY KEY, appliedAt DATETIME DEFAULT CURRENT_TIMESTAMP)"@,
{
    String::from_str(
        "CREATE TABLE IF NOT EXISTS WBR_migrations (version BIGINT PRIMARY KEY, appliedAt DATETIME DEFAULT CURRENT_TIMESTAMP)",
    )
}

/// The query for the bookkeeping maximum: the greatest applied version,
/// or a null row when nothing was applied yet.
pub fn max_applied_version_query() -> (s: String)
    ensures
        s@ == "SELECT MAX(version) FROM WBR_migrations"@,
{
    String::from_str("SELECT MAX(version) FROM WBR_migrations")
}

/// The statement that records one applied version. The host binds the
/// step's version and runs it inside the same transaction as the step's
/// own statements, so the schema change and its bookkeeping record become
/// visible atomically, never one without the other.
pub fn record_applied_statement() -> (s: String)
    ensures
        s@ == "INSERT INTO WBR_migrations (version) VALUES (?)"@,
{
    String::from_str("INSERT INTO WBR_migrations (version) VALUES (?)")
}

/// True when version `v` has not been applied yet: the bookkeeping table's
/// maximum applied version is `baseline` (`None` when the table is empty),
/// and only strictly newer versions remain to be applied.
pub open spec fn newer_than(baseline: Option<u64>, v: u64) -> bool {
    match baseline {
        None => true,
        Some(m) => v > m,
    }
}

/// A step is pending when it is a forward step whose version is newer than
/// the baseline. Pending steps are exactly what one `apply` run executes;
/// backward steps are never applied automatically.
pub open spec fn step_pending(s: MigrationStep, baseline: Option<u64>) -> bool {
    s.kind is Forward && newer_than(baseline, s.version)
}

/// `plan` is the work list of one run against `catalog` and `baseline`:
/// it lists, in ascending order, exactly the indices of the pending steps.
pub open spec fn plan_matches(
    catalog: Seq<MigrationStep>,
    baseline: Option<u64>,
    plan: Seq<usize>,
) -> bool {
    &&& forall|k: int|
        0 <= k < plan.len() ==> #[trigger] plan[k] < catalog.len()
            && step_pending(catalog[plan[k] as int], baseline)
    &&& forall|k: int, l: int| 0 <= k < l < plan.len() ==> #[trigger] plan[k] < #[trigger] plan[l]
    &&& forall|i: int|
        0 <= i < catalog.len() && step_pending(#[trigger] catalog[i], baseline) ==> exists|k: int|
            0 <= k < plan.len() && plan[k] == i
}

/// The versions recorded by the first `count` steps of a run's plan.
pub open spec fn versions_applied(
    catalog: Seq<MigrationStep>,
    plan: Seq<usize>,
    count: int,
) -> Set<u64> {
    Set::new(
        |v: u64|
            exists|k: int|
                0 <= k < count && k < plan.len() && catalog[#[trigger] plan[k] as int].version == v,
    )
}

/// The versions of all forward steps of a catalog: what a run against a
/// fresh database applies.
pub open spec fn forward_versions(catalog: Seq<MigrationStep>) -> Set<u64> {
    Set::new(
        |v: u64|
            exists|i: int|
                0 <= i < catalog.len() && (#[trigger] catalog[i]).kind is Forward
                    && catalog[i].version == v,
    )
}

/// One `apply` run over a catalog. The host reads the bookkeeping maximum
/// and starts the runner with it; the runner validates the catalog, plans
/// the pending steps, and then hands them out one at a time. For each
/// current step the host executes the step's statements and inserts the
/// bookkeeping record inside one transaction, then reports the outcome:
/// `step_succeeded` moves on, `step_failed` builds the error that ends the
/// run, leaving every step committed so far applied.
pub struct Runner {
    catalog: Vec<MigrationStep>,
    baseline: Option<u64>,
    plan: Vec<usize>,
    pos: usize,
}

impl Runner {
    /// The catalog this run was started with.
    pub closed spec fn catalog(self) -> Seq<MigrationStep> {
        self.catalog@
    }

    /// The bookkeeping maximum this run was started with.
    pub closed spec fn baseline(self) -> Option<u64> {
        self.baseline
    }

    /// The run's work list: indices of the pending steps, ascending.
    pub closed spec fn plan(self) -> Seq<usize> {
        self.plan@
    }

    /// How many plan entries have been executed and committed so far.
    pub closed spec fn pos(self) -> int {
        self.pos as int
    }

    /// The runner's invariant: the catalog is well formed, the plan lists
    /// exactly the pending steps in order, and the position stays inside
    /// the plan.
    pub open spec fn wf(self) -> bool {
        &&& catalog_well_formed(self.catalog())
        &&& plan_matches(self.catalog(), self.baseline(), self.plan())
        &&& 0 <= self.pos() <= self.plan().len()
    }

    /// The versions this run has applied so far.
    pub open spec fn applied_versions(self) -> Set<u64> {
        versions_applied(self.catalog(), self.plan(), self.pos())
    }

    /// Starts a run: validates the catalog and plans the pending steps.
    /// Returns `CatalogError`, before any step executes, exactly when the
    /// catalog is malformed; no statement of a malformed catalog is ever
    /// handed out.
    pub fn start(catalog: Vec<MigrationStep>, baseline: Option<u64>) -> (r: Result<
        Runner,
        MigrationError,
    >)
        ensures
            r is Ok <==> catalog_well_formed(catalog@),
            r is Err ==> r == Err::<Runner, MigrationError>(MigrationError::CatalogError),
            r matches Ok(runner) ==> {
                &&& runner.wf()
                &&& runner.catalog() == catalog@
                &&& runner.baseline() == baseline
                &&& runner.pos() == 0
            },
    {
        match validate(&catalog) {
            Err(e) => Err(e),
            Ok(()) => {
                let n = catalog.len();
                let mut plan: Vec<usize> = Vec::new();
                let mut i: usize = 0;
                while i < n
                    invariant
                        i <= n == catalog@.len(),
                        forall|k: int|
                            0 <= k < plan@.len() ==> #[trigger] plan@[k] < i && step_pending(
                                catalog@[plan@[k] as int],
                                baseline,
                            ),
                        forall|k: int, l: int|
                            0 <= k < l < plan@.len() ==> #[trigger] plan@[k] < #[trigger] plan@[l],
                        forall|j: int|
                            0 <= j < i && step_pending(#[trigger] catalog@[j], baseline)
                                ==> exists|k: int| 0 <= k < plan@.len() && plan@[k] == j,
                    decreases n - i,
                {
                    let step = &catalog[i];
                    let pending = match step.kind {
                        MigrationKind::Forward => match baseline {
                            None => true,
                            Some(m) => step.version > m,
                        },
                        MigrationKind::Backward => false,
                    };
                    let ghost plan0 = plan@;
                    if pending {
                        plan.push(i);
                    }
                    proof {
                        assert(pending == step_pending(catalog@[i as int], baseline));
                        assert forall|j: int|
                            0 <= j < i + 1 && step_pending(#[trigger] catalog@[j], baseline)
                                implies exists|k: int|
                            0 <= k < plan@.len() && plan@[k] == j by {
                            if j < i {
                                let k = choose|k: int| 0 <= k < plan0.len() && plan0[k] == j;
                                assert(plan@[k] == j);
                            } else {
                                assert(plan@[plan@.len() - 1] == i);
                            }
                        }
                    }
                    i = i + 1;
                }
                Ok(Runner { catalog, baseline, plan, pos: 0 })
            },
        }
    }

    /// True when no pending step is left: the run is complete.
    pub fn is_done(&self) -> (b: bool)
        ensures
            b <==> self.pos() == self.plan().len(),
    {
        self.pos == self.plan.len()
    }

    /// How many steps this run must still execute.
    pub fn remaining(&self) -> (n: usize)
        requires
            self.wf(),
        ensures
            n == self.plan().len() - self.pos(),
    {
        self.plan.len() - self.pos
    }

    /// How many steps this run has applied so far; after a complete run,
    /// the applied count the caller reports.
    pub fn applied_count(&self) -> (n: usize)
        ensures
            n == self.pos(),
    {
        self.pos
    }

    /// The step to execute next: the catalog step at the plan's current
    /// position.
    pub fn current(&self) -> (s: &MigrationStep)
        requires
            self.wf(),
            self.pos() < self.plan().len(),
        ensures
            *s == self.catalog()[self.plan()[self.pos()] as int],
    {
        &self.catalog[self.plan[self.pos]]
    }

    /// Records that the host committed the current step's statements and
    /// its bookkeeping record as one transaction: the run moves past it
    /// and its version counts as applied.
    pub fn step_succeeded(&mut self)
        requires
            old(self).wf(),
            old(self).pos() < old(self).plan().len(),
        ensures
            final(self).wf(),
            final(self).catalog() == old(self).catalog(),
            final(self).baseline() == old(self).baseline(),
            final(self).plan() == old(self).plan(),
            final(self).pos() == old(self).pos() + 1,
            final(self).applied_versions() =~= old(self).applied_versions().insert(
                old(self).catalog()[old(self).plan()[old(self).pos()] as int].version,
            ),
    {
        let n = self.plan.len();
        assert(self.pos < n);
        let ghost before = *self;
        self.pos = self.pos + 1;
        proof {
            let v0 = before.catalog()[before.plan()[before.pos()] as int].version;
            assert forall|v: u64| self.applied_versions().contains(v)
                implies before.applied_versions().insert(v0).contains(v) by {
                let k = choose|k: int|
                    0 <= k < self.pos() && k < self.plan().len()
                        && self.catalog()[self.plan()[k] as int].version == v;
                if k < before.pos() {
                    assert(before.applied_versions().contains(v));
                }
            }
            assert forall|v: u64| before.applied_versions().insert(v0).contains(v)
                implies self.applied_versions().contains(v) by {
                if before.applied_versions().contains(v) {
                    let k = choose|k: int|
                        0 <= k < before.pos() && k < before.plan().len()
                            && before.catalog()[before.plan()[k] as int].version == v;
                    assert(self.catalog()[self.plan()[k] as int].version == v);
                } else {
                    assert(self.catalog()[self.plan()[before.pos()] as int].version == v);
                }
            }
        }
    }

    /// Builds the error that ends the run when the current step's
    /// statements fail with `cause`. The run stops here: the position does
    /// not advance, no later step is attempted, and the steps committed so
    /// far stay applied.
    pub fn step_failed(&self, cause: String) -> (e: MigrationError)
        requires
            self.wf(),
            self.pos() < self.plan().len(),
        ensures
            e == (MigrationError::StepFailure {
                version: self.catalog()[self.plan()[self.pos()] as int].version,
                cause: cause,
            }),
    {
        let version = self.catalog[self.plan[self.pos]].version;
        MigrationError::StepFailure { version, cause }
    }

    /// The versions applied so far, in the order they were committed.
    pub fn completed_versions(&self) -> (vs: Vec<u64>)
        requires
            self.wf(),
        ensures
            vs@.len() == self.pos(),
            forall|k: int|
                0 <= k < vs@.len() ==> vs@[k] == self.catalog()[#[trigger] self.plan()[k] as int].version,
    {
        let mut vs: Vec<u64> = Vec::new();
        let mut k: usize = 0;
        while k < self.pos
            invariant
                k <= self.pos,
                self.wf(),
                vs@.len() == k,
                forall|j: int|
                    0 <= j < k ==> vs@[j] == self.catalog()[
                        #[trigger] self.plan()[j] as int
                    ].version,
            decreases self.pos - k,
        {
            vs.push(self.catalog[self.plan[k]].version);
            k = k + 1;
        }
        vs
    }
}

/// Law: a run against a fresh database (empty bookkeeping, so the baseline
/// is `None`) plans every forward step of the catalog and nothing else:
/// once it completes, the set of applied versions is exactly the catalog's
/// forward versions.
pub proof fn lemma_fresh_run_applies_all(catalog: Seq<MigrationStep>, plan: Seq<usize>)
    requires
        plan_matches(catalog, None, plan),
    ensures
        versions_applied(catalog, plan, plan.len() as int) =~= forward_versions(catalog),
{
    assert forall|v: u64| versions_applied(catalog, plan, plan.len() as int).contains(v)
        implies forward_versions(catalog).contains(v) by {
        let k = choose|k: int|
            0 <= k < plan.len() as int && k < plan.len() && catalog[plan[k] as int].version == v;
        assert(step_pending(catalog[plan[k] as int], None));
        assert((plan[k] as int) < catalog.len());
    }
    assert forall|v: u64| forward_versions(catalog).contains(v)
        implies versions_applied(catalog, plan, plan.len() as int).contains(v) by {
        let i = choose|i: int|
            0 <= i < catalog.len() && (#[trigger] catalog[i]).kind is Forward
                && catalog[i].version == v;
        assert(step_pending(catalog[i], None));
        let k = choose|k: int| 0 <= k < plan.len() && plan[k] == i;
        assert(catalog[plan[k] as int].version == v);
    }
}

/// Law (idempotence): running `apply` twice in a row with the same catalog
/// is a no-op the second time. After a completed first run against a fresh
/// database, the bookkeeping maximum that the second run reads is an upper
/// bound of everything the first run applied (or is still absent when the
/// catalog planned nothing); the second run then plans no steps at all, so
/// it applies nothing and leaves the applied-version set and the schema
/// exactly as one run left them.
pub proof fn lemma_apply_idempotent(
    catalog: Seq<MigrationStep>,
    plan1: Seq<usize>,
    baseline2: Option<u64>,
    plan2: Seq<usize>,
)
    requires
        plan_matches(catalog, None, plan1),
        // what the bookkeeping reads after the first run: nothing when the
        // first run applied nothing, otherwise at least every applied version
        match baseline2 {
            None => plan1.len() == 0,
            Some(m) => forall|k: int|
                0 <= k < plan1.len() ==> catalog[#[trigger] plan1[k] as int].version <= m,
        },
        plan_matches(catalog, baseline2, plan2),
    ensures
        plan2.len() == 0,
        versions_applied(catalog, plan2, plan2.len() as int) =~= Set::<u64>::empty(),
{
    if plan2.len() > 0 {
        let i = plan2[0] as int;
        assert(step_pending(catalog[i], baseline2));
        let k = choose|k: int| 0 <= k < plan1.len() && plan1[k] == i;
        assert(catalog[plan1[k] as int].version == catalog[i].version);
    }
    assert(versions_applied(catalog, plan2, plan2.len() as int) =~= Set::<u64>::empty());
}

/// Law (incremental application): when the catalog grows by one forward
/// step whose version is above the bookkeeping maximum `m`, and `m` bounds
/// every forward version already in the catalog, the next run plans exactly
/// the new step — the one at the old catalog's length — and touches nothing
/// previously applied.
pub proof fn lemma_incremental_step(
    catalog: Seq<MigrationStep>,
    step: MigrationStep,
    m: u64,
    plan: Seq<usize>,
)
    requires
        step.kind is Forward,
        step.version > m,
        forall|i: int|
            0 <= i < catalog.len() && (#[trigger] catalog[i]).kind is Forward ==> catalog[i].version
                <= m,
        plan_matches(catalog.push(step), Some(m), plan),
    ensures
        plan =~= seq![catalog.len() as usize],
{
    let full = catalog.push(step);
    assert(step_pending(full[catalog.len() as int], Some(m)));
    let k0 = choose|k: int| 0 <= k < plan.len() && plan[k] == catalog.len() as int;
    assert forall|k: int| 0 <= k < plan.len() implies plan[k] == catalog.len() as usize by {
        let i = plan[k] as int;
        assert(step_pending(full[i], Some(m)));
        if i < catalog.len() {
            assert(full[i] == catalog[i]);
        }
    }
    if plan.len() > 1 {
        assert(plan[0] < plan[1]);
    }
    assert(plan.len() == 1);
}

/// Law (atomic step failure): when the step at plan position `p` fails,
/// the run has committed exactly the plan's first `p` steps, and each of
/// their versions is strictly below the failing step's version: the
/// database stays at the last version committed before the failure, and no
/// later step was attempted.
pub proof fn lemma_failure_prefix(
    catalog: Seq<MigrationStep>,
    baseline: Option<u64>,
    plan: Seq<usize>,
    p: int,
)
    requires
        catalog_well_formed(catalog),
        plan_matches(catalog, baseline, plan),
        0 <= p < plan.len(),
    ensures
        forall|v: u64|
            versions_applied(catalog, plan, p).contains(v) ==> v < catalog[plan[p] as int].version,
{
    assert forall|v: u64| versions_applied(catalog, plan, p).contains(v)
        implies v < catalog[plan[p] as int].version by {
        let k = choose|k: int|
            0 <= k < p && k < plan.len() && catalog[plan[k] as int].version == v;
        assert(plan[k] < plan[p]);
        assert(catalog[plan[k] as int].version < catalog[plan[p] as int].version);
    }
}

} // verus!
