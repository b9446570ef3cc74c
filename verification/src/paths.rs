//! File paths, held as strings; what only the platform's path rules can
//! say of them is asked of the standard library.

use vstd::prelude::*;

verus! {

/// The final component of the path written as `path`, as the platform's
/// path rules give it; `None` where the path has none.
pub uninterp spec fn path_file_name(path: Seq<char>) -> Option<Seq<char>>;

/// The extension of the path written as `path`: what follows the last
/// dot of its final component, where that component has a dot that is
/// not its first character; `None` otherwise.
pub uninterp spec fn path_extension(path: Seq<char>) -> Option<Seq<char>>;

/// Whether the path written as `path` begins with all the components of
/// the path written as `base`.
pub uninterp spec fn path_starts_with(path: Seq<char>, base: Seq<char>) -> bool;

/// Whether the two strings, read as paths, have the same components.
pub uninterp spec fn same_path(a: Seq<char>, b: Seq<char>) -> bool;

/// `Path::file_name` on the path written as `path`, turned back into a
/// string: the result is the path's final component, which depends on
/// `path` alone.
#[verifier::external_body]
pub(crate) fn file_name_of(path: &str) -> (name: Option<String>)
    ensures
        match name {
            Some(n) => path_file_name(path@) == Some(n@),
            None => path_file_name(path@) is None,
        },
{
    std::path::Path::new(path).file_name().map(|n| n.to_string_lossy().to_string())
}

/// `Path::extension` on the path written as `path`, turned back into a
/// string: the result is the path's extension, which depends on `path`
/// alone.
#[verifier::external_body]
pub(crate) fn extension_of(path: &str) -> (ext: Option<String>)
    ensures
        match ext {
            Some(e) => path_extension(path@) == Some(e@),
            None => path_extension(path@) is None,
        },
{
    std::path::Path::new(path).extension().and_then(|e| e.to_str()).map(|e| e.to_string())
}

/// `Path::starts_with` on the paths written as `path` and `base`: whether
/// `base` is a prefix of `path`, component by component, which depends
/// on the two strings alone.
#[verifier::external_body]
pub(crate) fn path_has_prefix(path: &str, base: &str) -> (has: bool)
    ensures
        has == path_starts_with(path@, base@),
{
    std::path::Path::new(path).starts_with(std::path::Path::new(base))
}

/// `==` of `Path` on the paths written as `a` and `b`: whether they are
/// equal as paths, which depends on the two strings alone.
#[verifier::external_body]
pub(crate) fn paths_equal(a: &str, b: &str) -> (same: bool)
    ensures
        same == same_path(a@, b@),
{
    std::path::Path::new(a) == std::path::Path::new(b)
}

} // verus!
