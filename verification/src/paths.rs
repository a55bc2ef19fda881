//! File-system paths, held as text.
//!
//! How a directory and a name are put together, and what the directory of a
//! path is, are rules of the platform. They are taken from the standard
//! library and are not restated here: the two results have names, and the
//! rest of the crate speaks of them by those names.

use vstd::prelude::*;
use vstd::string::*;

verus! {

/// Suffix that is appended to a source path to name its stored binary.
pub const ARTIFACT_SUFFIX: &'static str = ".spv";

/// The path that the platform forms from directory `dir` and `name`.
pub uninterp spec fn joined_path(dir: Seq<char>, name: Seq<char>) -> Seq<char>;

/// The path of the directory that holds `path`, where the platform says
/// that there is one.
pub uninterp spec fn parent_path(path: Seq<char>) -> Option<Seq<char>>;

/// Calls `std::path::Path::join` on `dir` with `name`. Assumed: the result
/// depends on the two texts alone; it is the path named
/// `joined_path(dir, name)`.
#[verifier::external_body]
pub(crate) fn join_path(dir: &str, name: &str) -> (path: String)
    ensures
        path@ == joined_path(dir@, name@),
{
    std::path::Path::new(dir).join(name).to_string_lossy().into_owned()
}

/// Calls `std::path::Path::parent` on `path`. Assumed: the result depends
/// on the text alone; it is the path named `parent_path(path)`, or nothing
/// where that is nothing.
#[verifier::external_body]
pub(crate) fn parent_of(path: &str) -> (parent: Option<String>)
    ensures
        match parent {
            Some(dir) => parent_path(path@) == Some(dir@),
            None => parent_path(path@) is None,
        },
{
    match std::path::Path::new(path).parent() {
        Some(dir) => Some(dir.to_string_lossy().into_owned()),
        None => None,
    }
}

/// Path of the stored binary of `source`: the source path with the suffix
/// appended, nothing replaced.
pub open spec fn artifact_of(source: Seq<char>) -> Seq<char> {
    source + ARTIFACT_SUFFIX@
}

/// Path of the stored binary that belongs to the source file at `source`.
pub fn artifact_path(source: &str) -> (path: String)
    ensures
        path@ == artifact_of(source@),
{
    let mut path = String::from_str(source);
    path.append(ARTIFACT_SUFFIX);
    path
}

} // verus!
