use std::rc::Rc;

use sqlite_git::cursor::{walk_cap, ColumnValue, CursorError, GitLogCursor, LogEntryInfo};

fn entry(n: u32) -> LogEntryInfo {
    LogEntryInfo {
        commit_id: format!("{:040x}", n),
        parents: vec![format!("{:040x}", n + 1)],
        author: format!("Ann <ann@example.com> {} +0000", 1000 - n).into_bytes(),
        time: format!("2024-01-{:02} 00:00:00 +0000", 20 - n),
        message: format!("commit {}\n", n).into_bytes(),
    }
}

fn walk(n: u32) -> Vec<LogEntryInfo> {
    (0..n).map(entry).collect()
}

fn ids(cursor: &mut GitLogCursor<u32>) -> Vec<String> {
    let mut out = Vec::new();
    while !cursor.eof() {
        match cursor.column(0) {
            Ok(ColumnValue::Text(s)) => out.push(s),
            _ => panic!("commit id column is text"),
        }
        cursor.next();
    }
    out
}

#[test]
fn new_cursor_is_at_end() {
    let cursor: GitLogCursor<u32> = GitLogCursor::new();
    assert!(cursor.eof());
    assert_eq!(cursor.rowid(), 0);
    assert!(matches!(cursor.column(0), Err(CursorError::NoRow)));
}

#[test]
fn unbounded_scan_yields_every_commit_in_order() {
    let mut cursor = GitLogCursor::new();
    cursor.filter(Rc::new(7u32), walk(5), None);
    let expected: Vec<String> = walk(5).into_iter().map(|e| e.commit_id).collect();
    assert_eq!(ids(&mut cursor), expected);
    assert_eq!(cursor.rowid(), 5);
}

#[test]
fn negative_limit_is_no_limit() {
    let mut cursor = GitLogCursor::new();
    cursor.filter(Rc::new(7u32), walk(4), Some(-1));
    assert_eq!(ids(&mut cursor).len(), 4);
}

#[test]
fn bounded_scan_is_prefix_of_unbounded() {
    let mut all = GitLogCursor::new();
    all.filter(Rc::new(7u32), walk(6), None);
    let full = ids(&mut all);
    let mut some = GitLogCursor::new();
    some.filter(Rc::new(7u32), walk(6), Some(3));
    assert_eq!(ids(&mut some), full[..3].to_vec());
}

#[test]
fn limit_above_length_keeps_all() {
    let mut cursor = GitLogCursor::new();
    cursor.filter(Rc::new(7u32), walk(2), Some(10));
    assert_eq!(ids(&mut cursor).len(), 2);
}

#[test]
fn zero_limit_yields_nothing() {
    let mut cursor = GitLogCursor::new();
    cursor.filter(Rc::new(7u32), walk(3), Some(0));
    assert!(cursor.eof());
}

#[test]
fn columns_of_current_row() {
    let mut cursor = GitLogCursor::new();
    cursor.filter(Rc::new(7u32), walk(2), None);
    cursor.next();
    assert_eq!(cursor.rowid(), 1);
    let text = |i: i32| match cursor.column(i) {
        Ok(ColumnValue::Text(s)) => s,
        _ => panic!("text column"),
    };
    assert_eq!(text(0), format!("{:040x}", 1));
    assert_eq!(text(1), "2024-01-19 00:00:00 +0000");
    assert_eq!(text(2), "Ann <ann@example.com> 999 +0000");
    assert_eq!(text(3), "commit 1\n");
    assert!(matches!(cursor.column(9), Ok(ColumnValue::Null)));
}

#[test]
fn message_that_is_not_utf8_is_read_lossily() {
    let mut e = entry(0);
    e.message = vec![b'h', b'i', 0xff];
    let mut cursor = GitLogCursor::new();
    cursor.filter(Rc::new(7u32), vec![e], None);
    match cursor.column(3) {
        Ok(ColumnValue::Text(s)) => assert_eq!(s, "hi\u{fffd}"),
        _ => panic!("message column is text"),
    }
}

#[test]
fn repo_column_shares_the_handle() {
    let handle = Rc::new(42u32);
    let mut cursor = GitLogCursor::new();
    cursor.filter(Rc::clone(&handle), walk(1), None);
    match cursor.column(4) {
        Ok(ColumnValue::Handle(h)) => {
            assert!(Rc::ptr_eq(&h, &handle));
            assert_eq!(*h, 42);
        }
        _ => panic!("repo column is the handle"),
    }
}

#[test]
fn column_past_the_end_is_an_error() {
    let mut cursor = GitLogCursor::new();
    cursor.filter(Rc::new(7u32), walk(1), None);
    cursor.next();
    assert!(cursor.eof());
    assert!(matches!(cursor.column(0), Err(CursorError::NoRow)));
}

#[test]
fn walk_cap_follows_limit() {
    assert_eq!(walk_cap(Some(3)), 3);
    assert_eq!(walk_cap(Some(0)), 0);
    assert_eq!(walk_cap(Some(-1)), usize::MAX);
    assert_eq!(walk_cap(None), usize::MAX);
}
