//! Taking file paths apart and putting them together, by `std::path`.
//!
//! Path syntax belongs to the platform that the crate is built for: it is
//! fixed with the build and read from nothing but the text handed in. So
//! what these calls return is a function of their arguments, and each is
//! given a name; what the name comes to for a given text is the platform's
//! business and is stated nowhere.

use vstd::prelude::*;
use crate::text::opt_view;

verus! {

/// What `Path::file_stem` finds in `path`: the file name without its
/// extension, or nothing where the path has no file name.
pub uninterp spec fn stem_of(path: Seq<char>) -> Option<Seq<char>>;

/// What `Path::parent` finds in `path`: the path without its last
/// component, or nothing where the path is empty or ends in a root.
pub uninterp spec fn parent_of(path: Seq<char>) -> Option<Seq<char>>;

/// What `Path::join` makes of `directory` and `name`: the path of `name`
/// inside `directory`.
pub uninterp spec fn joined(directory: Seq<char>, name: Seq<char>) -> Seq<char>;

/// The directory part of `path`, from `Path::parent`.
#[verifier::external_body]
pub(crate) fn parent_directory(path: &str) -> (parent: Option<String>)
    ensures
        opt_view(parent) == parent_of(path@),
{
    std::path::Path::new(path).parent().map(|p| p.to_string_lossy().into_owned())
}

/// The file name of `path` without its extension, from `Path::file_stem`.
#[verifier::external_body]
pub(crate) fn file_stem(path: &str) -> (stem: Option<String>)
    ensures
        opt_view(stem) == stem_of(path@),
{
    std::path::Path::new(path).file_stem().map(|s| s.to_string_lossy().into_owned())
}

/// The path of `name` inside `directory`, from `Path::join`.
#[verifier::external_body]
pub(crate) fn join(directory: &str, name: &str) -> (path: String)
    ensures
        path@ == joined(directory@, name@),
{
    std::path::Path::new(directory).join(name).to_string_lossy().into_owned()
}

} // verus!
