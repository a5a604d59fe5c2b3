use vstd::prelude::*;

verus! {

/// The columns of the commit-log table, in declaration order.
#[derive(Clone, Copy, Debug, PartialEq, Eq, Structural)]
pub enum Columns {
    Commit,
    Time,
    Author,
    Message,
    Repo,
}

/// The declaration that the engine reads to learn the table's shape; the
/// last column is hidden and carries the repository handle.
pub const CREATE_SQL: &'static str = "CREATE TABLE x(commit_id,time,  author, message, repo hidden)";

/// The column that sits at position `index` of the declaration, if any.
pub open spec fn column_at(index: i32) -> Option<Columns> {
    if index == 0 {
        Some(Columns::Commit)
    } else if index == 1 {
        Some(Columns::Time)
    } else if index == 2 {
        Some(Columns::Author)
    } else if index == 3 {
        Some(Columns::Message)
    } else if index == 4 {
        Some(Columns::Repo)
    } else {
        None
    }
}

/// Maps a column index that the engine hands over to the column it names.
pub fn column(index: i32) -> (r: Option<Columns>)
    ensures
        r == column_at(index),
{
    match index {
        0 => Some(Columns::Commit),
        1 => Some(Columns::Time),
        2 => Some(Columns::Author),
        3 => Some(Columns::Message),
        4 => Some(Columns::Repo),
        _ => None,
    }
}

} // verus!
