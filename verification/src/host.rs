//! What the library reads of the machine it runs on: the user's standard
//! directories, as the `dirs` crate finds them, and whether a path
//! exists.
//!
//! What comes back depends on the environment of the process (`XDG_*`
//! variables, the password database) or on what is on disk, so nothing
//! is promised of it: the functions that use these answers take them as
//! arguments and are verified for every value.

use vstd::prelude::*;

verus! {

/// `dirs::runtime_dir()`, as text (a non-UTF-8 path is converted
/// lossily). Depends on `XDG_RUNTIME_DIR`; nothing is stated of it.
#[verifier::external_body]
pub(crate) fn runtime_dir() -> Option<String> {
    dirs::runtime_dir().map(|p| p.to_string_lossy().into_owned())
}

/// `dirs::config_dir()`, as text (a non-UTF-8 path is converted
/// lossily). Depends on `XDG_CONFIG_HOME` and `HOME`; nothing is stated
/// of it.
#[verifier::external_body]
pub(crate) fn config_dir() -> Option<String> {
    dirs::config_dir().map(|p| p.to_string_lossy().into_owned())
}

/// `dirs::data_dir()`, as text (a non-UTF-8 path is converted lossily).
/// Depends on `XDG_DATA_HOME` and `HOME`; nothing is stated of it.
#[verifier::external_body]
pub(crate) fn data_dir() -> Option<String> {
    dirs::data_dir().map(|p| p.to_string_lossy().into_owned())
}

/// `dirs::home_dir()`, as text (a non-UTF-8 path is converted lossily).
/// Depends on `HOME` and the password database; nothing is stated of it.
#[verifier::external_body]
pub(crate) fn home_dir() -> Option<String> {
    dirs::home_dir().map(|p| p.to_string_lossy().into_owned())
}

/// Whether `p` names an existing file system entry
/// (`std::path::Path::exists`). Depends on what is on disk; nothing is
/// stated of it.
#[verifier::external_body]
pub(crate) fn path_exists(p: &str) -> bool {
    std::path::Path::new(p).exists()
}

} // verus!
