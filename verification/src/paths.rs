//! File-system paths, held as text, and the standard library's reading of
//! them.

use vstd::prelude::*;

verus! {

/// What `std::path::Path::extension` gives for the path: the part of the
/// last component after its final `.`, if there is one.
pub uninterp spec fn path_extension_of(path: Seq<char>) -> Option<Seq<char>>;

/// What `std::path::Path::parent` gives for the path.
pub uninterp spec fn path_parent_of(path: Seq<char>) -> Option<Seq<char>>;

/// What `std::path::Path::join` gives for the two paths.
pub uninterp spec fn path_join_of(base: Seq<char>, rest: Seq<char>) -> Seq<char>;

/// What `std::path::Path::file_name` gives for the path: its last
/// component, unless that is `..`.
pub uninterp spec fn path_file_name_of(path: Seq<char>) -> Option<Seq<char>>;

/// Calls `std::path::Path::file_name`. Its result depends on the path
/// alone; the file name of a path given as text is text again.
#[verifier::external_body]
pub(crate) fn path_file_name(path: &str) -> (r: Option<String>)
    ensures
        match r {
            Some(n) => path_file_name_of(path@) == Some(n@),
            None => path_file_name_of(path@) is None,
        },
{
    std::path::Path::new(path).file_name().map(|n| n.to_string_lossy().into_owned())
}

/// Calls `std::path::Path::extension`. Its result depends on the path
/// alone; the extension of a path given as text is text again.
#[verifier::external_body]
pub(crate) fn path_extension(path: &str) -> (r: Option<String>)
    ensures
        match r {
            Some(e) => path_extension_of(path@) == Some(e@),
            None => path_extension_of(path@) is None,
        },
{
    std::path::Path::new(path).extension().map(|e| e.to_string_lossy().into_owned())
}

/// Calls `std::path::Path::parent`, which is `None` for a root or an empty
/// path. Its result depends on the path alone.
#[verifier::external_body]
pub(crate) fn path_parent(path: &str) -> (r: Option<String>)
    ensures
        match r {
            Some(p) => path_parent_of(path@) == Some(p@),
            None => path_parent_of(path@) is None,
        },
{
    std::path::Path::new(path).parent().map(|p| p.to_string_lossy().into_owned())
}

/// Calls `std::path::Path::join`. Its result depends on the two paths and on
/// the platform's separator, which is fixed for a build.
#[verifier::external_body]
pub(crate) fn path_join(base: &str, rest: &str) -> (r: String)
    ensures
        r@ == path_join_of(base@, rest@),
{
    std::path::Path::new(base).join(rest).to_string_lossy().into_owned()
}

} // verus!
