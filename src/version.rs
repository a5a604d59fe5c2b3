use vstd::prelude::*;

verus! {

/// The version text for a package version: the version behind a `v`.
pub open spec fn version_text(version: Seq<char>) -> Seq<char> {
    seq!['v'] + version
}

/// The diagnostic text: the version and the revision it was built from, one
/// per line.
pub open spec fn debug_text(version: Seq<char>, source: Seq<char>) -> Seq<char> {
    seq!['V', 'e', 'r', 's', 'i', 'o', 'n', ':', ' '] + version_text(version) + seq!['\n']
        + seq!['S', 'o', 'u', 'r', 'c', 'e', ':', ' '] + source + seq!['\n']
}

/// The version string reported by the extension. It depends on `version`
/// alone, so repeated calls agree.
pub fn git_version(version: &str) -> (r: String)
    ensures
        r@ == version_text(version@),
{
    let mut s = String::from_str("v");
    proof { reveal_strlit("v"); }
    s.append(version);
    s
}

/// The diagnostic string reported by the extension. It depends on its
/// arguments alone, so repeated calls agree.
pub fn git_debug(version: &str, source: &str) -> (r: String)
    ensures
        r@ == debug_text(version@, source@),
{
    let mut s = String::from_str("Version: ");
    proof { reveal_strlit("Version: "); }
    let v = git_version(version);
    s.append(v.as_str());
    s.append("\nSource: ");
    proof { reveal_strlit("\nSource: "); }
    s.append(source);
    s.append("\n");
    proof { reveal_strlit("\n"); }
    assert(s@ =~= debug_text(version@, source@));
    s
}

} // verus!
