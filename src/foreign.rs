//! The calls that the library makes into gix and into std text decoding,
//! each with the contract it is trusted to meet, and the gix types that
//! pass through verified code.
use vstd::prelude::*;

verus! {

/// An open repository: opaque here, carried from the scan to the blob lookup.
#[verifier::external_type_specification]
#[verifier::external_body]
pub struct ExRepository(gix::Repository);

/// An object id, as gix parses it from hex.
#[verifier::external_type_specification]
#[verifier::external_body]
pub struct ExObjectId(gix::ObjectId);

/// The error that gix reports for a failed parse or lookup.
#[verifier::external_type_specification]
#[verifier::external_body]
pub struct ExError(gix::Error);

/// A commit read from a repository.
#[verifier::external_type_specification]
#[verifier::external_body]
pub struct ExCommit<'repo>(gix::Commit<'repo>);

/// A tree read from a repository.
#[verifier::external_type_specification]
#[verifier::external_body]
pub struct ExTree<'repo>(gix::Tree<'repo>);

/// An entry of a tree.
#[verifier::external_type_specification]
#[verifier::external_body]
pub struct ExEntry<'repo>(gix::object::tree::Entry<'repo>);

/// A commit's fields, parsed from its bytes.
#[verifier::external_type_specification]
#[verifier::external_body]
pub struct ExCommitRef<'a>(gix::objs::CommitRef<'a>);

/// An author or committer line: name, email and time.
#[verifier::external_type_specification]
#[verifier::external_body]
pub struct ExSignatureRef<'a>(gix::actor::SignatureRef<'a>);

/// A name and email, without the time.
#[verifier::external_type_specification]
#[verifier::external_body]
pub struct ExIdentityRef<'a>(gix::actor::IdentityRef<'a>);

/// A point in time with its offset.
#[verifier::external_type_specification]
#[verifier::external_body]
pub struct ExTime(gix::date::Time);

/// The error of a failed write.
#[verifier::external_type_specification]
#[verifier::external_body]
pub struct ExIoError(std::io::Error);

/// The id of a commit as `gix::hash::oid::to_hex` writes it.
pub uninterp spec fn hex_id_of(c: gix::Commit<'static>) -> Seq<char>;

/// What `gix::Commit::decode` parses from a commit, or nothing where its
/// bytes do not parse.
pub uninterp spec fn decoded(c: gix::Commit<'static>) -> Option<gix::objs::CommitRef<'static>>;

/// What `gix::objs::CommitRef::author` parses, or nothing where the author
/// line does not parse.
pub uninterp spec fn author_of(c: gix::objs::CommitRef<'static>) -> Option<gix::actor::SignatureRef<'static>>;

/// What `gix::actor::SignatureRef::actor` takes from a signature.
pub uninterp spec fn actor_of(s: gix::actor::SignatureRef<'static>) -> gix::actor::IdentityRef<'static>;

/// What `gix::actor::IdentityRef::write_to` writes, or nothing where it
/// fails.
pub uninterp spec fn identity_text(i: gix::actor::IdentityRef<'static>) -> Option<Seq<u8>>;

/// What `gix::actor::SignatureRef::time` parses, or nothing where it fails.
pub uninterp spec fn time_of(s: gix::actor::SignatureRef<'static>) -> Option<gix::date::Time>;

/// What `gix::date::Time::format` with `ISO8601` writes, or nothing where it
/// fails.
pub uninterp spec fn iso8601_of(t: gix::date::Time) -> Option<Seq<char>>;

/// The `message` field of a parsed commit.
pub uninterp spec fn message_of(c: gix::objs::CommitRef<'static>) -> Seq<u8>;

/// What `String::from_utf8` decodes from a byte sequence, or nothing where
/// the bytes are not well-formed UTF-8.
pub uninterp spec fn utf8_decode(b: Seq<u8>) -> Option<Seq<char>>;

/// What `String::from_utf8_lossy` makes of a byte sequence.
pub uninterp spec fn lossy_text(b: Seq<u8>) -> Seq<char>;

/// An ASCII hexadecimal digit, either case.
pub open spec fn is_hex_digit(c: char) -> bool {
    ('0' <= c && c <= '9') || ('a' <= c && c <= 'f') || ('A' <= c && c <= 'F')
}

/// A lower-case hexadecimal digit.
pub open spec fn is_lower_hex_digit(c: char) -> bool {
    ('0' <= c && c <= '9') || ('a' <= c && c <= 'f')
}

/// Text that is all hexadecimal digits.
pub open spec fn all_hex(s: Seq<char>) -> bool {
    forall|i: int| 0 <= i < s.len() ==> #[trigger] is_hex_digit(s[i])
}

/// Relies on `gix::ObjectId::from_str`, which decodes hex of the length of
/// a SHA-1 digest (40 digits), or of a SHA-256 one (64) where gix is built
/// for it, and fails on anything else.
#[verifier::external_body]
pub(crate) fn parse_object_id(s: &str) -> (r: Result<gix::ObjectId, gix::Error>)
    ensures
        r is Ok ==> all_hex(s@) && (s@.len() == 40 || s@.len() == 64),
        all_hex(s@) && s@.len() == 40 ==> r is Ok,
{
    <gix::ObjectId as std::str::FromStr>::from_str(s)
}

/// Relies on `gix::Repository::find_commit`: reads the commit with `id`,
/// failing where there is none.
#[verifier::external_body]
pub(crate) fn find_commit<'repo>(repo: &'repo gix::Repository, id: gix::ObjectId) -> (r: Result<gix::Commit<'repo>, gix::Error>) {
    repo.find_commit(id)
}

/// Relies on `gix::Commit::tree`: reads the commit's root tree.
#[verifier::external_body]
pub(crate) fn commit_tree<'repo>(commit: &gix::Commit<'repo>) -> (r: Result<gix::Tree<'repo>, gix::Error>) {
    commit.tree()
}

/// Relies on `gix::Tree::lookup_entry_by_path`: the entry at a path relative
/// to the tree, or none where the path is absent.
#[verifier::external_body]
pub(crate) fn lookup_entry<'repo>(tree: &gix::Tree<'repo>, path: &str) -> (r: Result<Option<gix::object::tree::Entry<'repo>>, gix::Error>) {
    tree.lookup_entry_by_path(path)
}

/// Relies on `gix::object::tree::Entry::object`: reads the object that the
/// entry points to and hands back its bytes.
#[verifier::external_body]
pub(crate) fn entry_data<'repo>(entry: &gix::object::tree::Entry<'repo>) -> (r: Result<Vec<u8>, gix::Error>) {
    entry.object().map(|o| o.data.clone())
}

/// Relies on `gix::hash::oid::to_hex`: the commit's id as lower-case hex,
/// two digits per byte of the digest.
#[verifier::external_body]
pub(crate) fn commit_hex_id(commit: &gix::Commit<'_>) -> (r: String)
    ensures
        r@ == hex_id_of(*commit),
        forall|i: int| 0 <= i < r@.len() ==> #[trigger] is_lower_hex_digit(r@[i]),
        r@.len() == 40 || r@.len() == 64,
{
    commit.id.to_hex().to_string()
}

/// Relies on `gix::Commit::decode`: parses the commit's fields from its bytes.
#[verifier::external_body]
pub(crate) fn decode_commit<'a>(commit: &'a gix::Commit<'_>) -> (r: Result<gix::objs::CommitRef<'a>, gix::Error>)
    ensures
        match r {
            Ok(d) => decoded(*commit) == Some(d),
            Err(_) => decoded(*commit) is None,
        },
{
    commit.decode()
}

/// Relies on `gix::objs::CommitRef::author`: parses the author line.
#[verifier::external_body]
pub(crate) fn commit_author<'a>(commit: &gix::objs::CommitRef<'a>) -> (r: Result<gix::actor::SignatureRef<'a>, gix::Error>)
    ensures
        match r {
            Ok(a) => author_of(*commit) == Some(a),
            Err(_) => author_of(*commit) is None,
        },
{
    commit.author()
}

/// Relies on `gix::actor::SignatureRef::actor`: the name and email of a
/// signature.
#[verifier::external_body]
pub(crate) fn signature_actor<'a>(sig: &gix::actor::SignatureRef<'a>) -> (r: gix::actor::IdentityRef<'a>)
    ensures
        r == actor_of(*sig),
{
    sig.actor()
}

/// Relies on `gix::actor::IdentityRef::write_to`: the name and email in git's
/// serialization, written to a fresh buffer.
#[verifier::external_body]
pub(crate) fn identity_bytes(id: &gix::actor::IdentityRef<'_>) -> (r: Result<Vec<u8>, std::io::Error>)
    ensures
        match r {
            Ok(b) => identity_text(*id) == Some(b@),
            Err(_) => identity_text(*id) is None,
        },
{
    let mut buf = Vec::new();
    id.write_to(&mut buf).map(|_| buf)
}

/// Relies on `gix::actor::SignatureRef::time`: parses the signature's time.
#[verifier::external_body]
pub(crate) fn signature_time(sig: &gix::actor::SignatureRef<'_>) -> (r: Result<gix::date::Time, gix::Error>)
    ensures
        match r {
            Ok(t) => time_of(*sig) == Some(t),
            Err(_) => time_of(*sig) is None,
        },
{
    sig.time()
}

/// Relies on `gix::date::Time::format` with `ISO8601`: the time as
/// `YYYY-MM-DD HH:MM:SS +HHMM`, or nothing where it cannot be formatted.
#[verifier::external_body]
pub(crate) fn format_iso8601(time: &gix::date::Time) -> (r: Option<String>)
    ensures
        match r {
            Some(t) => iso8601_of(*time) == Some(t@),
            None => iso8601_of(*time) is None,
        },
{
    time.format(gix::date::time::format::ISO8601).ok()
}

/// Relies on the `message` field of `gix::objs::CommitRef`: the raw message
/// bytes.
#[verifier::external_body]
pub(crate) fn commit_message(commit: &gix::objs::CommitRef<'_>) -> (r: Vec<u8>)
    ensures
        r@ == message_of(*commit),
{
    commit.message.to_vec()
}

/// Relies on `String::from_utf8`: the bytes as text where they are valid
/// UTF-8, else the same bytes handed back.
#[verifier::external_body]
pub(crate) fn decode_utf8(b: Vec<u8>) -> (r: Result<String, Vec<u8>>)
    ensures
        match r {
            Ok(s) => utf8_decode(b@) == Some(s@),
            Err(v) => utf8_decode(b@) is None && v@ == b@,
        },
{
    String::from_utf8(b).map_err(|e| e.into_bytes())
}

/// Relies on `String::from_utf8_lossy`: text in every case, which is the
/// decoded text where the bytes are valid UTF-8.
#[verifier::external_body]
pub(crate) fn text_lossy(b: &[u8]) -> (r: String)
    ensures
        r@ == lossy_text(b@),
        utf8_decode(b@) is Some ==> r@ == utf8_decode(b@)->Some_0,
{
    String::from_utf8_lossy(b).into_owned()
}

} // verus!
