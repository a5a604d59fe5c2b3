use vstd::prelude::*;

use crate::foreign::{
    all_hex, commit_tree, decode_utf8, entry_data, find_commit, lookup_entry, parse_object_id,
    utf8_decode,
};

verus! {

/// The content of a blob: text where its bytes are UTF-8, else the bytes.
pub enum BlobValue {
    Text(String),
    Binary(Vec<u8>),
}

/// Why a blob lookup fails.
#[derive(Clone, Copy, Debug, PartialEq, Eq, Structural)]
pub enum LookupError {
    /// The first argument is not a repository handle.
    NotARepository,
    /// The commit id is not hex of a digest's length.
    InvalidCommitId,
    /// No commit has that id.
    CommitNotFound,
    /// The commit's tree cannot be read.
    TreeUnavailable,
    /// Resolving the path in the tree fails for a reason other than its
    /// absence.
    PathLookupFailed,
    /// The entry at the path does not lead to a readable object.
    NotAnObject,
}

/// Commit-id text that names a SHA-1 digest.
pub open spec fn is_sha1_hex(s: Seq<char>) -> bool {
    all_hex(s) && s.len() == 40
}

/// Text that may name a commit: hex digits of a SHA-1 or SHA-256 digest's
/// length.
pub open spec fn is_id_text(s: Seq<char>) -> bool {
    all_hex(s) && (s.len() == 40 || s.len() == 64)
}

/// Whether `v` carries the bytes `b`: as their decoded text where they are
/// UTF-8, else as the bytes themselves.
pub open spec fn holds_bytes(v: BlobValue, b: Seq<u8>) -> bool {
    match v {
        BlobValue::Text(s) => utf8_decode(b) == Some(s@),
        BlobValue::Binary(d) => utf8_decode(b) is None && d@ == b,
    }
}

/// Classifies the bytes of a blob as text or binary.
pub fn blob_value(data: Vec<u8>) -> (r: BlobValue)
    ensures
        holds_bytes(r, data@),
{
    match decode_utf8(data) {
        Ok(s) => BlobValue::Text(s),
        Err(d) => BlobValue::Binary(d),
    }
}

/// The value of a lookup, given what resolving the path gave: an error
/// where resolving failed, null where the path is absent, the content where
/// the object was read, an error where it could not be.
pub fn resolve_found(found: Result<Option<Result<Vec<u8>, ()>>, ()>) -> (r: Result<Option<BlobValue>, LookupError>)
    ensures
        match found {
            Err(_) => r == Err::<Option<BlobValue>, LookupError>(LookupError::PathLookupFailed),
            Ok(None) => r matches Ok(None),
            Ok(Some(Err(_))) => r == Err::<Option<BlobValue>, LookupError>(LookupError::NotAnObject),
            Ok(Some(Ok(b))) => r matches Ok(Some(v)) && holds_bytes(v, b@),
        },
{
    match found {
        Err(_) => Err(LookupError::PathLookupFailed),
        Ok(None) => Ok(None),
        Ok(Some(Err(_))) => Err(LookupError::NotAnObject),
        Ok(Some(Ok(b))) => Ok(Some(blob_value(b))),
    }
}

/// Resolves `path` at the commit `commit_id` of the repository behind
/// `handle`. A handle that is not a repository and malformed commit ids are
/// errors; a path absent from the commit's tree gives null.
pub fn git_at(handle: Option<&gix::Repository>, commit_id: &str, path: &str) -> (r: Result<Option<BlobValue>, LookupError>)
    ensures
        handle is None <==> r == Err::<Option<BlobValue>, LookupError>(LookupError::NotARepository),
        handle is Some && !is_id_text(commit_id@)
            ==> r == Err::<Option<BlobValue>, LookupError>(LookupError::InvalidCommitId),
        handle is Some && is_sha1_hex(commit_id@)
            ==> r != Err::<Option<BlobValue>, LookupError>(LookupError::InvalidCommitId),
        r matches Ok(Some(BlobValue::Binary(d))) ==> utf8_decode(d@) is None,
        r matches Ok(Some(v)) ==> exists|b: Seq<u8>| holds_bytes(v, b),
{
    let repo = match handle {
        Some(repo) => repo,
        None => return Err(LookupError::NotARepository),
    };
    let id = match parse_object_id(commit_id) {
        Ok(id) => id,
        Err(_) => return Err(LookupError::InvalidCommitId),
    };
    let commit = match find_commit(repo, id) {
        Ok(c) => c,
        Err(_) => return Err(LookupError::CommitNotFound),
    };
    let tree = match commit_tree(&commit) {
        Ok(t) => t,
        Err(_) => return Err(LookupError::TreeUnavailable),
    };
    let found = match lookup_entry(&tree, path) {
        Ok(Some(entry)) => match entry_data(&entry) {
            Ok(b) => Ok(Some(Ok(b))),
            Err(_) => Ok(Some(Err(()))),
        },
        Ok(None) => Ok(None),
        Err(_) => Err(()),
    };
    resolve_found(found)
}

} // verus!
