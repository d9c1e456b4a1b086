//! Paths as text, taken apart and put together as the standard library does.
use vstd::prelude::*;
use std::path::Path;

verus! {

/// The text that `Path::join` gives for a directory and a name.
pub uninterp spec fn joined(dir: Seq<char>, name: Seq<char>) -> Seq<char>;

/// The text of what `Path::parent` gives for a path, where it gives one.
pub uninterp spec fn parent_of(path: Seq<char>) -> Option<Seq<char>>;

/// The text of what `Path::file_name` gives for a path, where it gives one.
pub uninterp spec fn file_name_of(path: Seq<char>) -> Option<Seq<char>>;

/// An optional string as an optional sequence of characters.
pub open spec fn opt_text(s: Option<String>) -> Option<Seq<char>> {
    match s {
        Some(t) => Some(t@),
        None => None,
    }
}

/// `Path::join` on two texts: `name` put behind `dir` as a path is, which is
/// text again. What that is in characters is left to the standard library;
/// the contract only gives it its name.
#[verifier::external_body]
pub(crate) fn join(dir: &str, name: &str) -> (res: String)
    ensures
        res@ == joined(dir@, name@),
{
    Path::new(dir).join(name).to_string_lossy().into_owned()
}

/// `Path::parent` on a text: the path without its last component, which is
/// text again, or `None` where the path ends in a root or is empty. The
/// contract only gives the result its name.
#[verifier::external_body]
pub(crate) fn parent(path: &str) -> (res: Option<String>)
    ensures
        opt_text(res) == parent_of(path@),
{
    match Path::new(path).parent() {
        Some(p) => Some(p.to_string_lossy().into_owned()),
        None => None,
    }
}

/// `Path::file_name` on a text: the last component of the path, which is
/// text again, or `None` where the path ends in `..` or has no component.
/// The contract only gives the result its name.
#[verifier::external_body]
pub(crate) fn file_name(path: &str) -> (res: Option<String>)
    ensures
        opt_text(res) == file_name_of(path@),
{
    match Path::new(path).file_name() {
        Some(n) => Some(n.to_string_lossy().into_owned()),
        None => None,
    }
}

} // verus!
