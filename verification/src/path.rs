//! Paths as text, and the few questions about them that are left to `camino`.
//!
//! This crate holds a path as a `String` and speaks of it by its characters.
//! How two paths are joined and whether a path is absolute depend on the
//! path syntax of the platform the crate is built for; both are asked of
//! `camino` and appear in contracts under a name. So does the text of a
//! path that the operating system hands out.

use vstd::prelude::*;

verus! {

/// The path that `camino` builds by adjoining `path` to `base`, under the
/// path syntax of the platform the crate is built for.
pub uninterp spec fn joined(base: Seq<char>, path: Seq<char>) -> Seq<char>;

/// Whether `camino` takes `path` to be absolute, under the path syntax of the
/// platform the crate is built for.
pub uninterp spec fn is_absolute_path(path: Seq<char>) -> bool;

/// The text of `path` where `camino` accepts it, which it does when the path
/// is valid UTF-8; `None` where it does not.
pub uninterp spec fn utf8_text(path: std::path::PathBuf) -> Option<Seq<char>>;

/// `std::path::PathBuf`, a path as the operating system holds it. Nothing
/// is known of what it holds but its text, where it has one: it is carried
/// from the platform to [`from_path_buf`].
#[verifier::external_type_specification]
#[verifier::external_body]
pub struct ExPathBuf(std::path::PathBuf);

/// Calls `camino::Utf8Path::join` on `base` and hands back the text of the
/// path it built. Nothing is claimed of that text but that it is the one
/// named [`joined`].
#[verifier::external_body]
pub(crate) fn join(base: &str, path: &str) -> (r: String)
    ensures
        r@ == joined(base@, path@),
{
    camino::Utf8Path::new(base).join(path).into_string()
}

/// Calls `camino::Utf8Path::is_absolute`. Nothing is claimed of the answer
/// but that it is the one named [`is_absolute_path`].
#[verifier::external_body]
pub(crate) fn is_absolute(path: &str) -> (r: bool)
    ensures
        r == is_absolute_path(path@),
{
    camino::Utf8Path::new(path).is_absolute()
}

/// Calls `camino::Utf8PathBuf::from_path_buf`, which accepts a path of the
/// operating system if it is valid UTF-8, and hands back its text. Nothing
/// is claimed of the result but that it is the one named [`utf8_text`].
#[verifier::external_body]
pub(crate) fn from_path_buf(path: std::path::PathBuf) -> (r: Option<String>)
    ensures
        match r {
            Some(text) => utf8_text(path) == Some(text@),
            None => utf8_text(path) is None,
        },
{
    camino::Utf8PathBuf::from_path_buf(path).ok().map(camino::Utf8PathBuf::into_string)
}

} // verus!
