use vstd::prelude::*;

use crate::columns::{column, column_at, Columns};

verus! {

/// The operator of a predicate that the planner offers, as far as the
/// commit-log table tells them apart.
#[derive(Clone, Copy, Debug, PartialEq, Eq, Structural)]
pub enum ConstraintOp {
    Eq,
    Limit,
    Other,
}

/// One predicate that the planner offers: the column it is on, its operator,
/// and whether the planner can supply its value to the scan.
#[derive(Clone, Copy, Debug, PartialEq, Eq, Structural)]
pub struct ConstraintInfo {
    pub column: i32,
    pub op: ConstraintOp,
    pub usable: bool,
}

/// What the table asks of the planner for one predicate: the input slot that
/// receives its value (0 for none) and whether the engine may skip
/// re-checking it on each row.
#[derive(Clone, Copy, Debug, PartialEq, Eq, Structural)]
pub struct ConstraintUsage {
    pub argv_index: i32,
    pub omit: bool,
}

/// Why planning fails.
#[derive(Clone, Copy, Debug, PartialEq, Eq, Structural)]
pub enum PlanError {
    /// A predicate on the repository column that is not a usable equality.
    UnusableConstraint,
    /// No usable equality on the repository column: the walk has no start.
    MissingRepository,
}

/// The plan that the table reports: one usage per offered predicate, in the
/// order offered, and the coarse fixed estimates.
pub struct IndexPlan {
    pub usages: Vec<ConstraintUsage>,
    pub estimated_rows: i64,
    pub idxnum: i32,
}

/// The input slot that receives the repository path.
pub const REPO_ARGV_INDEX: i32 = 1;

/// The input slot that receives the row-count bound.
pub const LIMIT_ARGV_INDEX: i32 = 2;

/// The row estimate reported for every plan.
pub const ESTIMATED_ROWS: i64 = 100000;

/// The plan number reported for every plan.
pub const PLAN_IDXNUM: i32 = 2;

/// A predicate on the repository column other than a row-count bound.
pub open spec fn on_repo(c: ConstraintInfo) -> bool {
    c.op != ConstraintOp::Limit && column_at(c.column) == Some(Columns::Repo)
}

/// A usable equality on the repository column.
pub open spec fn is_repo_eq(c: ConstraintInfo) -> bool {
    on_repo(c) && c.usable && c.op == ConstraintOp::Eq
}

/// A predicate on the repository column that the walk cannot serve.
pub open spec fn is_unusable(c: ConstraintInfo) -> bool {
    on_repo(c) && !is_repo_eq(c)
}

/// What the table asks of the planner for one predicate.
pub open spec fn usage_of(c: ConstraintInfo) -> ConstraintUsage {
    if c.op == ConstraintOp::Limit {
        ConstraintUsage { argv_index: LIMIT_ARGV_INDEX, omit: false }
    } else if is_repo_eq(c) {
        ConstraintUsage { argv_index: REPO_ARGV_INDEX, omit: true }
    } else {
        ConstraintUsage { argv_index: 0, omit: false }
    }
}

/// The outcome of planning over the offered predicates.
pub open spec fn plan_of(cs: Seq<ConstraintInfo>) -> Result<Seq<ConstraintUsage>, PlanError> {
    if exists|i: int| 0 <= i < cs.len() && #[trigger] is_unusable(cs[i]) {
        Err(PlanError::UnusableConstraint)
    } else if !(exists|i: int| 0 <= i < cs.len() && #[trigger] is_repo_eq(cs[i])) {
        Err(PlanError::MissingRepository)
    } else {
        Ok(cs.map_values(|c: ConstraintInfo| usage_of(c)))
    }
}

/// The commit-log table. It holds no state of its own: every scan names its
/// repository.
pub struct GitLogTable {}

impl GitLogTable {
    /// Connects the table: its declaration and the table itself.
    pub fn connect() -> (r: (&'static str, GitLogTable))
        ensures
            r.0 == crate::columns::CREATE_SQL,
    {
        (crate::columns::CREATE_SQL, GitLogTable {})
    }

    /// Negotiates the offered predicates with the planner.
    pub fn best_index(&self, constraints: &Vec<ConstraintInfo>) -> (r: Result<IndexPlan, PlanError>)
        ensures
            match r {
                Ok(p) => plan_of(constraints@) == Ok::<Seq<ConstraintUsage>, PlanError>(p.usages@)
                    && p.estimated_rows == ESTIMATED_ROWS && p.idxnum == PLAN_IDXNUM,
                Err(e) => plan_of(constraints@) == Err::<Seq<ConstraintUsage>, PlanError>(e),
            },
    {
        let mut usages: Vec<ConstraintUsage> = Vec::new();
        let mut has_repo = false;
        let mut i: usize = 0;
        while i < constraints.len()
            invariant
                i <= constraints@.len(),
                usages@ == constraints@.take(i as int).map_values(|c: ConstraintInfo| usage_of(c)),
                forall|j: int| 0 <= j < i ==> !is_unusable(#[trigger] constraints@[j]),
                has_repo <==> exists|j: int| 0 <= j < i && #[trigger] is_repo_eq(constraints@[j]),
            decreases constraints@.len() - i,
        {
            let c = constraints[i];
            if c.op == ConstraintOp::Limit {
                usages.push(ConstraintUsage { argv_index: LIMIT_ARGV_INDEX, omit: false });
            } else {
                match column(c.column) {
                    Some(Columns::Repo) => {
                        if c.usable && c.op == ConstraintOp::Eq {
                            usages.push(ConstraintUsage { argv_index: REPO_ARGV_INDEX, omit: true });
                            has_repo = true;
                        } else {
                            assert(is_unusable(constraints@[i as int]));
                            return Err(PlanError::UnusableConstraint);
                        }
                    },
                    _ => {
                        usages.push(ConstraintUsage { argv_index: 0, omit: false });
                    },
                }
            }
            assert(constraints@.take(i + 1) == constraints@.take(i as int).push(c));
            i = i + 1;
        }
        assert(constraints@.take(i as int) == constraints@);
        if !has_repo {
            return Err(PlanError::MissingRepository);
        }
        Ok(IndexPlan { usages, estimated_rows: ESTIMATED_ROWS, idxnum: PLAN_IDXNUM })
    }
}

} // verus!

verus! {

/// Planning fails, before any scan starts, wherever no usable equality on
/// the repository column is offered.
pub proof fn lemma_plan_needs_repository(cs: Seq<ConstraintInfo>)
    requires
        forall|i: int| 0 <= i < cs.len() ==> !#[trigger] is_repo_eq(cs[i]),
    ensures
        plan_of(cs) is Err,
{
}

} // verus!
