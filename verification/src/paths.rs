//! Path arithmetic: joining components and converting a path to text.

use vstd::prelude::*;
use vstd::string::StringExecFns;
use crate::DirsError;

verus! {

/// A base path joined with a single leaf component: `<base>/<leaf>`.
pub open spec fn joined(base: Seq<char>, leaf: Seq<char>) -> Seq<char> {
    base + "/"@ + leaf
}

/// The application home directory under a root directory:
/// `<root>/.config/<identity>`.
pub open spec fn home_of(root: Seq<char>, identity: Seq<char>) -> Seq<char> {
    joined(joined(root, ".config"@), identity)
}

/// Joins a leaf onto a base that may itself have failed to resolve,
/// propagating the error unchanged.
pub open spec fn joined_result(
    base: Result<Seq<char>, DirsError>,
    leaf: Seq<char>,
) -> Result<Seq<char>, DirsError> {
    match base {
        Ok(b) => Ok(joined(b, leaf)),
        Err(e) => Err(e),
    }
}

/// Relates an executable path result to its mathematical value: success and
/// failure agree, and on success the strings agree character for character.
pub open spec fn path_result_is(
    r: Result<String, DirsError>,
    s: Result<Seq<char>, DirsError>,
) -> bool {
    match r {
        Ok(p) => s matches Ok(q) && p@ == q,
        Err(e) => s matches Err(e2) && e == e2,
    }
}

/// Appends `/` and the leaf component to the base path.
pub fn join_path(base: &str, leaf: &str) -> (r: String)
    ensures
        r@ == joined(base@, leaf@),
{
    let mut s = base.to_owned();
    s.append("/");
    s.append(leaf);
    s
}

/// Lossless text form of a path. Every path this crate produces is valid
/// text, so the conversion always succeeds; the `Result` mirrors the
/// platform conversion, which rejects paths that are not representable as
/// text (hosts map such paths to [`DirsError::EncodingError`] at the edge).
pub fn path_to_str(path: &String) -> (r: Result<&str, DirsError>)
    ensures
        r matches Ok(s) && s@ == path@,
{
    Ok(path.as_str())
}

} // verus!
