use vstd::prelude::*;

verus! {

/// The parent directory of a path given as its characters: the path without
/// its final component, or nothing when the path is empty or consists only
/// of a root or prefix. The result depends on the characters alone.
pub uninterp spec fn parent_path(path: Seq<char>) -> Option<Seq<char>>;

/// Relies on std::path::Path::parent to split the final component off a
/// path, and on str::to_string to keep the parent's characters as they are
/// (the parent of a path built from valid UTF-8 is valid UTF-8).
#[verifier::external_body]
pub(crate) fn parent_of(path: &str) -> (r: Option<String>)
    ensures
        r is Some <==> parent_path(path@) is Some,
        r is Some ==> (r->0)@ == parent_path(path@)->0,
{
    std::path::Path::new(path)
        .parent()
        .and_then(|p| p.to_str())
        .map(|p| p.to_string())
}

} // verus!
