//! What the library asks of the host about paths. How a path is cut into
//! components and where a user's home is differ from host to host, so none
//! of these results is described further: the functions that use them state
//! what holds whatever came back.

use vstd::prelude::*;

verus! {

/// Takes the last component of a path with `Path::file_name`, where the
/// path has one that is valid text.
#[verifier::external_body]
pub(crate) fn file_name_of(path: &str) -> (name: Option<String>) {
    std::path::Path::new(path).file_name().and_then(|n| n.to_str()).map(|n| n.to_string())
}

/// Takes the last component of a path without its extension with
/// `Path::file_stem`, where the path has one that is valid text.
#[verifier::external_body]
pub(crate) fn file_stem_of(path: &str) -> (stem: Option<String>) {
    std::path::Path::new(path).file_stem().and_then(|n| n.to_str()).map(|n| n.to_string())
}

/// Puts `part` below `base` with `Path::join`.
#[verifier::external_body]
pub(crate) fn join_path(base: &str, part: &str) -> (joined: String) {
    std::path::Path::new(base).join(part).to_string_lossy().into_owned()
}

/// Asks `dirs::home_dir` for the home directory of the current user; `None`
/// where the host knows none.
#[verifier::external_body]
pub(crate) fn home_dir() -> (home: Option<String>) {
    dirs::home_dir().map(|p| p.to_string_lossy().into_owned())
}

} // verus!
