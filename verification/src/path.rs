//! File paths, held as text and taken apart by the `camino` and `pathdiff`
//! crates.
//!
//! What those crates compute for a path is not restated here: each result has
//! a name, and the contracts of this crate speak of the names. The results
//! follow the path rules of the platform that the crate is built for.

use vstd::prelude::*;

verus! {

/// The extension of the file name of `path`, as `camino::Utf8Path::extension`
/// gives it.
pub uninterp spec fn path_extension(path: Seq<char>) -> Option<Seq<char>>;

/// `path` without its last component, as `camino::Utf8Path::parent` gives it.
pub uninterp spec fn path_parent(path: Seq<char>) -> Option<Seq<char>>;

/// `path` adjoined to `base`, as `camino::Utf8Path::join` gives it.
pub uninterp spec fn path_join(base: Seq<char>, path: Seq<char>) -> Seq<char>;

/// The relative path that leads from the directory `base` to `path`, as
/// `pathdiff::diff_utf8_paths` gives it.
pub uninterp spec fn path_diff(path: Seq<char>, base: Seq<char>) -> Option<Seq<char>>;

/// Whether `a` and `b` are the same path, as `camino::Utf8Path` compares
/// them: component by component.
pub uninterp spec fn path_eq(a: Seq<char>, b: Seq<char>) -> bool;

/// Whether `a` comes before `b` in the order of `camino::Utf8Path`, which
/// goes by the components of the two paths.
pub uninterp spec fn path_lt(a: Seq<char>, b: Seq<char>) -> bool;

/// The text of an optional string.
pub open spec fn opt_text(o: Option<String>) -> Option<Seq<char>> {
    match o {
        Some(s) => Some(s@),
        None => None,
    }
}

/// `camino::Utf8Path::extension`: the part of the file name after its last
/// dot, if the path has a file name with one. It is a function of the path's
/// text.
#[verifier::external_body]
pub(crate) fn extension(path: &str) -> (r: Option<String>)
    ensures
        opt_text(r) == path_extension(path@),
{
    camino::Utf8Path::new(path).extension().map(|e| e.to_owned())
}

/// `camino::Utf8Path::parent`: the path without its last component, or
/// nothing where the path ends in a root or is empty. It is a function of the
/// path's text.
#[verifier::external_body]
pub(crate) fn parent(path: &str) -> (r: Option<String>)
    ensures
        opt_text(r) == path_parent(path@),
{
    camino::Utf8Path::new(path).parent().map(|p| p.as_str().to_owned())
}

/// `camino::Utf8Path::join`: `path` adjoined to `base`. It is a function of
/// the two texts.
#[verifier::external_body]
pub(crate) fn join(base: &str, path: &str) -> (r: String)
    ensures
        r@ == path_join(base@, path@),
{
    camino::Utf8Path::new(base).join(path).into_string()
}

/// `pathdiff::diff_utf8_paths`: the relative path from `base` to `path`, or
/// nothing where there is none. It reads no file system and is a function of
/// the two texts.
#[verifier::external_body]
pub(crate) fn diff(path: &str, base: &str) -> (r: Option<String>)
    ensures
        opt_text(r) == path_diff(path@, base@),
{
    pathdiff::diff_utf8_paths(path, base).map(|p| p.into_string())
}

/// `camino::Utf8Path::eq`: whether two paths have the same components. It
/// is a function of the two texts.
#[verifier::external_body]
pub(crate) fn same_path(a: &str, b: &str) -> (r: bool)
    ensures
        r == path_eq(a@, b@),
{
    camino::Utf8Path::new(a) == camino::Utf8Path::new(b)
}

/// The `<` of `camino::Utf8Path`: whether the components of `a` come before
/// those of `b`. It is a function of the two texts.
#[verifier::external_body]
pub(crate) fn path_before(a: &str, b: &str) -> (r: bool)
    ensures
        r == path_lt(a@, b@),
{
    camino::Utf8Path::new(a) < camino::Utf8Path::new(b)
}

/// The marker that stands for the directory of `path` in the build graph:
/// `.ninja_dir` in the parent of `path`, where `path` has a parent.
pub open spec fn dir_marker(path: Seq<char>) -> Option<Seq<char>> {
    match path_parent(path) {
        Some(p) => Some(path_join(p, ".ninja_dir"@)),
        None => None,
    }
}

/// Whether the extension of `path` is `dwp`.
pub open spec fn is_dwp(path: Seq<char>) -> bool {
    path_extension(path) == Some("dwp"@)
}

/// The marker that stands for the directory of `path` in the build graph.
pub fn ninja_dir(path: &str) -> (r: Option<String>)
    ensures
        opt_text(r) == dir_marker(path@),
{
    match parent(path) {
        Some(p) => Some(join(p.as_str(), ".ninja_dir")),
        None => None,
    }
}

/// Whether `path` names a split debug-info package.
pub fn has_dwp_extension(path: &str) -> (r: bool)
    ensures
        r == is_dwp(path@),
{
    match extension(path) {
        Some(e) => crate::text::same_text(e.as_str(), "dwp"),
        None => false,
    }
}

} // verus!
