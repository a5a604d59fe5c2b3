use vstd::prelude::*;

use crate::columns::{column, column_at, Columns};
use std::rc::Rc;

use crate::foreign::{
    actor_of, author_of, commit_author, commit_hex_id, commit_message, decode_commit, decoded,
    format_iso8601, hex_id_of, identity_bytes, identity_text, iso8601_of, lossy_text,
    message_of, signature_actor, signature_time, text_lossy, time_of,
};

verus! {

/// One commit of the walk, as plain values.
pub struct LogEntryInfo {
    /// The commit id in hex.
    pub commit_id: String,
    /// The ids of the parents, in the commit's order.
    pub parents: Vec<String>,
    /// The author's name, email and time, serialized.
    pub author: Vec<u8>,
    /// The author time, ISO-8601.
    pub time: String,
    /// The raw message; it need not be UTF-8.
    pub message: Vec<u8>,
}

/// Why a commit of the walk cannot be turned into a row.
#[derive(Clone, Copy, Debug, PartialEq, Eq, Structural)]
pub enum EntryError {
    /// The commit's bytes do not parse.
    Decode,
    /// The author line does not parse or cannot be written out.
    Author,
    /// The author time does not parse or cannot be formatted.
    Time,
}

/// The author identity, author time and message of a commit, or the first
/// step at which reading them fails.
pub open spec fn entry_fields(c: gix::Commit<'static>) -> Result<(Seq<u8>, Seq<char>, Seq<u8>), EntryError> {
    match decoded(c) {
        None => Err(EntryError::Decode),
        Some(d) => match author_of(d) {
            None => Err(EntryError::Author),
            Some(sig) => match identity_text(actor_of(sig)) {
                None => Err(EntryError::Author),
                Some(author) => match time_of(sig) {
                    None => Err(EntryError::Time),
                    Some(t) => match iso8601_of(t) {
                        None => Err(EntryError::Time),
                        Some(time) => Ok((author, time, message_of(d))),
                    },
                },
            },
        },
    }
}

/// Builds the row of one commit of the walk, given its parents' ids: a row
/// exactly when the commit, its author line and its time parse.
pub fn log_entry(commit: &gix::Commit<'_>, parents: Vec<String>) -> (r: Result<LogEntryInfo, EntryError>)
    ensures
        match r {
            Ok(e) => entry_fields(*commit) == Ok::<(Seq<u8>, Seq<char>, Seq<u8>), EntryError>((e.author@, e.time@, e.message@))
                && e.commit_id@ == hex_id_of(*commit) && e.parents@ == parents@,
            Err(x) => entry_fields(*commit) == Err::<(Seq<u8>, Seq<char>, Seq<u8>), EntryError>(x),
        },
{
    let decoded = match decode_commit(commit) {
        Ok(d) => d,
        Err(_) => return Err(EntryError::Decode),
    };
    let sig = match commit_author(&decoded) {
        Ok(s) => s,
        Err(_) => return Err(EntryError::Author),
    };
    let author = match identity_bytes(&signature_actor(&sig)) {
        Ok(b) => b,
        Err(_) => return Err(EntryError::Author),
    };
    let time = match signature_time(&sig) {
        Ok(t) => match format_iso8601(&t) {
            Some(s) => s,
            None => return Err(EntryError::Time),
        },
        Err(_) => return Err(EntryError::Time),
    };
    Ok(LogEntryInfo {
        commit_id: commit_hex_id(commit),
        parents,
        author,
        time,
        message: commit_message(&decoded),
    })
}

/// The number of rows that a walk of `n` commits yields under `limit`. A
/// negative bound is no bound.
pub open spec fn row_count(limit: Option<i64>, n: nat) -> nat {
    match limit {
        Some(l) => if 0 <= l && l < n { l as nat } else { n },
        None => n,
    }
}

/// The rows that a scan exposes: the walk, cut to the bound.
pub open spec fn materialize(walk: Seq<LogEntryInfo>, limit: Option<i64>) -> Seq<LogEntryInfo> {
    walk.take(row_count(limit, walk.len()) as int)
}

/// How many commits a walk needs to yield under `limit`.
pub open spec fn walk_cap_of(limit: Option<i64>) -> nat {
    match limit {
        Some(l) => if 0 <= l && l <= usize::MAX { l as nat } else { usize::MAX as nat },
        None => usize::MAX as nat,
    }
}

/// The first `walk_cap_of(limit)` commits of `walk`, or all where it has fewer.
pub open spec fn capped(walk: Seq<LogEntryInfo>, limit: Option<i64>) -> Seq<LogEntryInfo> {
    if walk.len() < walk_cap_of(limit) { walk } else { walk.take(walk_cap_of(limit) as int) }
}

/// How many commits a walk needs to yield under `limit`: reading stops
/// there without changing the rows that a scan exposes.
pub fn walk_cap(limit: Option<i64>) -> (r: usize)
    ensures
        r == walk_cap_of(limit),
{
    match limit {
        Some(l) => {
            if 0 <= l && (l as u64) <= (usize::MAX as u64) {
                l as usize
            } else {
                usize::MAX
            }
        },
        None => usize::MAX,
    }
}

/// A value of one column of the current row; `Handle` shares the scan's
/// repository.
pub enum ColumnValue<R> {
    Text(String),
    Handle(Rc<R>),
    Null,
}

/// Why a column cannot be read.
#[derive(Clone, Copy, Debug, PartialEq, Eq, Structural)]
pub enum CursorError {
    /// The cursor stands past the last row.
    NoRow,
}

/// The text of column `col` of `e`, where that column holds text.
pub open spec fn text_of(e: LogEntryInfo, col: Columns) -> Seq<char> {
    match col {
        Columns::Commit => e.commit_id@,
        Columns::Time => e.time@,
        Columns::Author => lossy_text(e.author@),
        Columns::Message => lossy_text(e.message@),
        Columns::Repo => Seq::empty(),
    }
}

/// A scan over the commit log: the rows of one walk, the position in them,
/// and the repository they were read from, shared with whoever asks for it.
pub struct GitLogCursor<R> {
    rowid: i64,
    repo: Option<Rc<R>>,
    commits: Vec<LogEntryInfo>,
}

impl<R> GitLogCursor<R> {
    /// The position, zero-based.
    pub closed spec fn pos(&self) -> int {
        self.rowid as int
    }

    /// The rows of the current scan.
    pub closed spec fn rows(&self) -> Seq<LogEntryInfo> {
        self.commits@
    }

    /// Whether a repository is held.
    pub closed spec fn has_repo(&self) -> bool {
        self.repo is Some
    }

    /// The repository held.
    pub closed spec fn repo(&self) -> R
        recommends
            self.has_repo(),
    {
        *self.repo->Some_0
    }

    /// The position is never negative.
    pub open spec fn wf(&self) -> bool {
        self.pos() >= 0
    }

    /// A cursor before any scan: no rows and no repository.
    pub fn new() -> (r: GitLogCursor<R>)
        ensures
            r.wf(),
            r.pos() == 0,
            r.rows() == Seq::<LogEntryInfo>::empty(),
            !r.has_repo(),
    {
        GitLogCursor { rowid: 0, repo: None, commits: Vec::new() }
    }

    /// Starts a scan over `walk`, the commits reached from the head, newest
    /// first, keeping at most `limit` of them.
    pub fn filter(&mut self, repo: Rc<R>, walk: Vec<LogEntryInfo>, limit: Option<i64>)
        ensures
            final(self).wf(),
            final(self).pos() == 0,
            final(self).rows() == materialize(walk@, limit),
            final(self).has_repo(),
            final(self).repo() == *repo,
    {
        let mut commits = walk;
        match limit {
            Some(l) => {
                if 0 <= l && (l as u64) < (commits.len() as u64) {
                    commits.truncate(l as usize);
                }
            },
            None => {},
        }
        self.rowid = 0;
        self.commits = commits;
        self.repo = Some(repo);
    }

    /// Moves to the next row.
    pub fn next(&mut self)
        requires
            old(self).wf(),
            old(self).pos() < i64::MAX,
        ensures
            final(self).wf(),
            final(self).pos() == old(self).pos() + 1,
            final(self).rows() == old(self).rows(),
            final(self).has_repo() == old(self).has_repo(),
            final(self).repo() == old(self).repo(),
    {
        self.rowid = self.rowid + 1;
    }

    /// Whether the cursor stands past the last row.
    pub fn eof(&self) -> (r: bool)
        requires
            self.wf(),
        ensures
            r == (self.pos() >= self.rows().len()),
    {
        (self.rowid as u64) >= (self.commits.len() as u64)
    }

    /// The value of column `i` of the current row: text for the four visible
    /// columns, the shared repository for the hidden one, null for an
    /// unknown index.
    pub fn column(&self, i: i32) -> (r: Result<ColumnValue<R>, CursorError>)
        requires
            self.wf(),
        ensures
            self.pos() >= self.rows().len() <==> r matches Err(CursorError::NoRow),
            r is Ok ==> match column_at(i) {
                Some(Columns::Repo) => match r->Ok_0 {
                    ColumnValue::Handle(h) => self.has_repo() && *h == self.repo(),
                    ColumnValue::Null => !self.has_repo(),
                    ColumnValue::Text(_) => false,
                },
                Some(col) => match r->Ok_0 {
                    ColumnValue::Text(s) => s@ == text_of(self.rows()[self.pos()], col),
                    _ => false,
                },
                None => r->Ok_0 is Null,
            },
    {
        if (self.rowid as u64) >= (self.commits.len() as u64) {
            return Err(CursorError::NoRow);
        }
        let commit = &self.commits[self.rowid as usize];
        let v = match column(i) {
            Some(Columns::Commit) => ColumnValue::Text(commit.commit_id.clone()),
            Some(Columns::Message) => ColumnValue::Text(text_lossy(commit.message.as_slice())),
            Some(Columns::Author) => ColumnValue::Text(text_lossy(commit.author.as_slice())),
            Some(Columns::Time) => ColumnValue::Text(commit.time.clone()),
            Some(Columns::Repo) => match &self.repo {
                Some(repo) => ColumnValue::Handle(Rc::clone(repo)),
                None => ColumnValue::Null,
            },
            None => ColumnValue::Null,
        };
        Ok(v)
    }

    /// The position, zero-based, which the engine uses as the row's identity.
    pub fn rowid(&self) -> (r: i64)
        ensures
            r == self.pos(),
    {
        self.rowid
    }
}

} // verus!

verus! {

/// A scan without a bound, or with a negative one, exposes the whole walk,
/// in the walk's order.
pub proof fn lemma_unbounded_scan_is_walk(walk: Seq<LogEntryInfo>, limit: Option<i64>)
    requires
        limit matches Some(l) ==> l < 0,
    ensures
        materialize(walk, limit) == walk,
        materialize(walk, limit).len() == walk.len(),
{
    assert(walk.take(walk.len() as int) =~= walk);
}

/// Stopping the walk at `walk_cap_of(limit)` commits leaves the rows of the
/// scan as they are.
pub proof fn lemma_capped_walk_keeps_rows(walk: Seq<LogEntryInfo>, limit: Option<i64>)
    requires
        walk.len() <= usize::MAX,
    ensures
        materialize(capped(walk, limit), limit) == materialize(walk, limit),
{
    if walk.len() >= walk_cap_of(limit) {
        let c = walk.take(walk_cap_of(limit) as int);
        assert(c.take(row_count(limit, c.len()) as int) =~= walk.take(row_count(limit, walk.len()) as int));
    }
}

/// A scan bounded by `k` below the walk's length exposes exactly the first
/// `k` rows of the unbounded scan, in the same order.
pub proof fn lemma_bounded_scan_is_prefix(walk: Seq<LogEntryInfo>, k: i64)
    requires
        0 <= k < walk.len(),
    ensures
        materialize(walk, Some(k)).len() == k,
        materialize(walk, Some(k)) == materialize(walk, None).take(k as int),
        forall|i: int| 0 <= i < k ==> #[trigger] materialize(walk, Some(k))[i] == materialize(walk, None)[i],
{
    lemma_unbounded_scan_is_walk(walk, None);
}

} // verus!
