//! Path queries from `std::path`, over paths held as text.
//!
//! Paths are `String`s in this library; the component logic of `std::path::Path`
//! (for the target the crate is compiled for) answers the two questions the
//! command construction asks of them.

use vstd::prelude::*;
use std::path::Path;

verus! {

/// What `Path::parent` gives for a path text, as text (`None` for a root or an empty path).
pub uninterp spec fn path_parent_of(p: Seq<char>) -> Option<Seq<char>>;

/// What `Path::file_name` gives for a path text, as text (`None` when it ends in `..` or is a root).
pub uninterp spec fn path_file_name_of(p: Seq<char>) -> Option<Seq<char>>;

/// `std::path::Path::parent` of the path `p`, converted back to text. Its result is a
/// function of the text alone on a given target; nothing more of it is stated.
#[verifier::external_body]
pub(crate) fn path_parent(p: &str) -> (r: Option<String>)
    ensures
        r.deep_view() == path_parent_of(p@),
{
    Path::new(p).parent().map(|q| q.to_string_lossy().into_owned())
}

/// `std::path::Path::file_name` of the path `p`, converted back to text. Its result is a
/// function of the text alone on a given target; nothing more of it is stated.
#[verifier::external_body]
pub(crate) fn path_file_name(p: &str) -> (r: Option<String>)
    ensures
        r.deep_view() == path_file_name_of(p@),
{
    Path::new(p).file_name().map(|q| q.to_string_lossy().into_owned())
}

} // verus!

verus! {

/// What `Path::join` gives for a base path and a relative name, as text.
pub uninterp spec fn path_join_of(base: Seq<char>, name: Seq<char>) -> Seq<char>;

/// `std::path::Path::join`, converted back to text. Its result is a function of the two
/// texts alone on a given target; nothing more of it is stated.
#[verifier::external_body]
pub(crate) fn path_join(base: &str, name: &str) -> (r: String)
    ensures
        r@ == path_join_of(base@, name@),
{
    Path::new(base).join(name).to_string_lossy().into_owned()
}

} // verus!
