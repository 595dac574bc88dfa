//! Path and text primitives shared by the rest of the library.
//!
//! Paths are carried as `String`s. What `std::path` computes on them
//! (extension, parent, component-wise equality, joining) is reached through
//! the small functions below, whose results are named by spec functions.

use vstd::prelude::*;

verus! {

/// The extension that `std::path::Path::extension` finds in a path.
pub uninterp spec fn extension_of(path: Seq<char>) -> Option<Seq<char>>;

/// The parent that `std::path::Path::parent` finds for a path.
pub uninterp spec fn parent_of(path: Seq<char>) -> Option<Seq<char>>;

/// Whether two paths are equal as `std::path::Path` values (component-wise).
pub uninterp spec fn same_path(a: Seq<char>, b: Seq<char>) -> bool;

/// The text that `str::to_lowercase` produces.
pub uninterp spec fn lowercase_of(s: Seq<char>) -> Seq<char>;

/// The path that `std::path::PathBuf::push` produces from a base and a name.
pub uninterp spec fn joined_path(base: Seq<char>, name: Seq<char>) -> Seq<char>;

/// The final component that `std::path::Path::file_name` finds in a path.
pub uninterp spec fn file_name_of(path: Seq<char>) -> Option<Seq<char>>;

/// Calls `std::path::Path::file_name` on `path`; the contract claims only
/// that the result is the one named `file_name_of` for this path.
#[verifier::external_body]
pub(crate) fn path_file_name(path: &str) -> (r: Option<String>)
    ensures
        match r {
            Some(n) => file_name_of(path@) == Some(n@),
            None => file_name_of(path@) is None,
        },
{
    match std::path::Path::new(path).file_name() {
        Some(n) => Some(n.to_string_lossy().into_owned()),
        None => None,
    }
}

/// Calls `std::path::Path::extension` on `path`; the contract claims only that
/// the result is the one named `extension_of` for this path.
#[verifier::external_body]
pub(crate) fn path_extension(path: &str) -> (r: Option<String>)
    ensures
        match r {
            Some(e) => extension_of(path@) == Some(e@),
            None => extension_of(path@) is None,
        },
{
    match std::path::Path::new(path).extension() {
        Some(e) => Some(e.to_string_lossy().into_owned()),
        None => None,
    }
}

/// Calls `std::path::Path::parent` on `path`; the contract claims only that
/// the result is the one named `parent_of` for this path.
#[verifier::external_body]
pub(crate) fn path_parent(path: &str) -> (r: Option<String>)
    ensures
        match r {
            Some(p) => parent_of(path@) == Some(p@),
            None => parent_of(path@) is None,
        },
{
    match std::path::Path::new(path).parent() {
        Some(p) => Some(p.to_string_lossy().into_owned()),
        None => None,
    }
}

/// Compares two paths with `PartialEq` of `std::path::Path`. The contract
/// names the result `same_path` and states the one fact that equality of
/// `Path` values plainly gives: a path equals itself.
#[verifier::external_body]
pub(crate) fn paths_equal(a: &str, b: &str) -> (r: bool)
    ensures
        r == same_path(a@, b@),
        a@ == b@ ==> r,
{
    std::path::Path::new(a) == std::path::Path::new(b)
}

/// Calls `str::to_lowercase`; the result is the one named `lowercase_of`.
#[verifier::external_body]
pub(crate) fn to_lowercase(s: &str) -> (r: String)
    ensures
        r@ == lowercase_of(s@),
{
    s.to_lowercase()
}

/// Calls `std::path::PathBuf::push` to append `name` to `base`; the result is
/// the one named `joined_path`.
#[verifier::external_body]
pub(crate) fn join_path(base: &str, name: &str) -> (r: String)
    ensures
        r@ == joined_path(base@, name@),
{
    let mut p = std::path::PathBuf::from(base);
    p.push(name);
    p.to_string_lossy().into_owned()
}

} // verus!
