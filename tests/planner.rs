use sqlite_git::columns::{self, Columns, CREATE_SQL};
use sqlite_git::plan::{ConstraintInfo, ConstraintOp, ConstraintUsage, GitLogTable, PlanError};

fn c(column: i32, op: ConstraintOp, usable: bool) -> ConstraintInfo {
    ConstraintInfo { column, op, usable }
}

#[test]
fn columns_map_in_declaration_order() {
    assert_eq!(columns::column(0), Some(Columns::Commit));
    assert_eq!(columns::column(1), Some(Columns::Time));
    assert_eq!(columns::column(2), Some(Columns::Author));
    assert_eq!(columns::column(3), Some(Columns::Message));
    assert_eq!(columns::column(4), Some(Columns::Repo));
    assert_eq!(columns::column(5), None);
    assert_eq!(columns::column(-1), None);
}

#[test]
fn connect_declares_hidden_repo_column() {
    let (sql, _table) = GitLogTable::connect();
    assert_eq!(sql, CREATE_SQL);
    assert!(sql.contains("repo hidden"));
}

#[test]
fn plan_without_constraints_is_missing_repository() {
    let (_, table) = GitLogTable::connect();
    let r = table.best_index(&vec![]);
    assert_eq!(r.err(), Some(PlanError::MissingRepository));
}

#[test]
fn plan_with_only_other_columns_is_missing_repository() {
    let (_, table) = GitLogTable::connect();
    let r = table.best_index(&vec![c(0, ConstraintOp::Eq, true), c(3, ConstraintOp::Other, true)]);
    assert_eq!(r.err(), Some(PlanError::MissingRepository));
}

#[test]
fn plan_with_repo_equality_binds_slot_one() {
    let (_, table) = GitLogTable::connect();
    let p = table.best_index(&vec![c(4, ConstraintOp::Eq, true)]).ok().unwrap();
    assert_eq!(p.usages, vec![ConstraintUsage { argv_index: 1, omit: true }]);
    assert_eq!(p.estimated_rows, 100000);
    assert_eq!(p.idxnum, 2);
}

#[test]
fn plan_with_limit_binds_slot_two() {
    let (_, table) = GitLogTable::connect();
    let p = table
        .best_index(&vec![c(0, ConstraintOp::Limit, true), c(4, ConstraintOp::Eq, true), c(1, ConstraintOp::Other, true)])
        .ok()
        .unwrap();
    assert_eq!(
        p.usages,
        vec![
            ConstraintUsage { argv_index: 2, omit: false },
            ConstraintUsage { argv_index: 1, omit: true },
            ConstraintUsage { argv_index: 0, omit: false },
        ]
    );
}

#[test]
fn plan_with_limit_on_repo_column_still_needs_equality() {
    let (_, table) = GitLogTable::connect();
    let r = table.best_index(&vec![c(4, ConstraintOp::Limit, true)]);
    assert_eq!(r.err(), Some(PlanError::MissingRepository));
}

#[test]
fn plan_with_repo_range_is_unusable() {
    let (_, table) = GitLogTable::connect();
    let r = table.best_index(&vec![c(4, ConstraintOp::Eq, true), c(4, ConstraintOp::Other, true)]);
    assert_eq!(r.err(), Some(PlanError::UnusableConstraint));
}

#[test]
fn plan_with_unusable_repo_equality_is_unusable() {
    let (_, table) = GitLogTable::connect();
    let r = table.best_index(&vec![c(4, ConstraintOp::Eq, false)]);
    assert_eq!(r.err(), Some(PlanError::UnusableConstraint));
}
