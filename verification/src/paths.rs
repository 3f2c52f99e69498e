//! Path handling that is left to `std::path`.
//!
//! The library holds a path as its text. How a path falls into components,
//! and how one path is adjoined to another, is for `std::path` to say, by
//! the conventions of the platform that the library is compiled for: the
//! functions here hand the text over and take the answer back as text. Verus
//! does not look into them. It takes each contract as given, so each says no
//! more than `std` documents.

use std::path::Path;
use vstd::prelude::*;

verus! {

/// The parent that `Path::parent` gives for the path with this text: the
/// path without its final component, or `None` where the path ends in a root
/// or a prefix, or is empty. The library reasons about it only as a function
/// of the text.
pub uninterp spec fn path_parent(path: Seq<char>) -> Option<Seq<char>>;

/// The text of the path that `Path::join` builds from a base and a path
/// adjoined to it. The library reasons about it only as a function of the
/// two texts.
pub uninterp spec fn path_join(base: Seq<char>, path: Seq<char>) -> Seq<char>;

/// Calls `Path::parent` on the path with the given text. Trusted: the
/// answer is [`path_parent`] of the text, which claims only that it depends
/// on nothing but the text.
#[verifier::external_body]
pub(crate) fn parent_of(path: &str) -> (parent: Option<String>)
    ensures
        parent.deep_view() == path_parent(path@),
{
    match Path::new(path).parent() {
        Some(dir) => Some(dir.display().to_string()),
        None => None,
    }
}

/// Calls `Path::join` to adjoin `path` to `base`. Trusted: the answer is
/// [`path_join`] of the two texts, which claims only that it depends on
/// nothing but them.
#[verifier::external_body]
pub(crate) fn join(base: &str, path: &str) -> (joined: String)
    ensures
        joined@ == path_join(base@, path@),
{
    Path::new(base).join(path).display().to_string()
}

/// Calls `str::ends_with` with a string as the pattern. Trusted: the answer
/// is `true` exactly when the pattern's characters are the last characters
/// of the text.
#[verifier::external_body]
pub(crate) fn ends_with(text: &str, suffix: &str) -> (ends: bool)
    ensures
        ends == suffix@.is_suffix_of(text@),
{
    text.ends_with(suffix)
}

} // verus!
