//! Where the script tree is installed: a fixed place below the home
//! directory of the current user.

use vstd::prelude::*;
use crate::path::{is_absolute, joined, lemma_joined_absolute, lemma_joined_relative, AbsolutePath};

verus! {

/// Where, below the home directory, the tool keeps binaries.
pub const BINARIES_DIR: &'static str = ".cargo/bin";

/// The directory, among the binaries, that holds the script tree.
pub const TOOL_DIR: &'static str = "cargo-watch-plus-js";

/// The platform could not supply what the tool needs.
#[derive(Clone, Copy, Debug, PartialEq, Eq, Structural)]
pub enum EnvironmentError {
    /// The platform names no home directory, or names one that is not an
    /// absolute path.
    NoHomeDirectory,
}

impl EnvironmentError {
    /// What went wrong, in words.
    pub open spec fn spec_message(self) -> Seq<char> {
        match self {
            EnvironmentError::NoHomeDirectory => "No home directory found."@,
        }
    }

    /// What went wrong, in words.
    pub fn message(&self) -> (r: String)
        ensures
            r@ == self.spec_message(),
    {
        match self {
            EnvironmentError::NoHomeDirectory => String::from_str("No home directory found."),
        }
    }
}

/// The installation path that belongs to the home directory `home`.
pub open spec fn installation_path(home: Seq<char>) -> Seq<char> {
    joined(joined(home, BINARIES_DIR@), TOOL_DIR@)
}

/// The installation path lies below the home directory, ends with the
/// directory of the binaries followed by that of the tool, and is absolute
/// when the home directory is.
pub proof fn law_installation_path_shape(home: Seq<char>)
    ensures
        home.is_prefix_of(installation_path(home)),
        TOOL_DIR@.is_suffix_of(installation_path(home)),
        installation_path(home) == joined(home, BINARIES_DIR@) + seq!['/'] + TOOL_DIR@,
        is_absolute(home) ==> is_absolute(installation_path(home)),
{
    reveal_strlit(".cargo/bin");
    reveal_strlit("cargo-watch-plus-js");
    let bin = joined(home, BINARIES_DIR@);
    lemma_joined_relative(home, BINARIES_DIR@);
    lemma_joined_relative(bin, TOOL_DIR@);
    assert(bin.last() == 'n');
    if is_absolute(home) {
        lemma_joined_absolute(home, BINARIES_DIR@);
        lemma_joined_absolute(bin, TOOL_DIR@);
    }
}

/// The installation path for the home directory that the platform reported.
///
/// Fails when there is none, or when it is not absolute: no relative
/// installation path is ever handed out.
pub fn resolve_from(home: Option<String>) -> (r: Result<AbsolutePath, EnvironmentError>)
    ensures
        match home {
            Some(dir) => if is_absolute(dir@) {
                r matches Ok(path) && path@ == installation_path(dir@)
            } else {
                r == Err::<AbsolutePath, EnvironmentError>(EnvironmentError::NoHomeDirectory)
            },
            None => r == Err::<AbsolutePath, EnvironmentError>(EnvironmentError::NoHomeDirectory),
        },
{
    match home {
        Some(dir) => match AbsolutePath::new(dir) {
            Some(base) => Ok(base.join(BINARIES_DIR).join(TOOL_DIR)),
            None => Err(EnvironmentError::NoHomeDirectory),
        },
        None => Err(EnvironmentError::NoHomeDirectory),
    }
}

/// `home::home_dir`: the home directory of the current user as the platform
/// reports it, as text. Nothing is claimed of the result: it depends on the
/// environment of the process.
#[verifier::external_body]
fn home_dir_text() -> (r: Option<String>) {
    match home::home_dir() {
        Some(dir) => Some(dir.to_string_lossy().into_owned()),
        None => None,
    }
}

/// The installation path of the current user. It is computed afresh on each
/// call, and nothing on disk is touched.
pub fn resolve() -> (r: Result<AbsolutePath, EnvironmentError>)
    ensures
        r matches Ok(path) ==> exists|home: Seq<char>|
            is_absolute(home) && path@ == #[trigger] installation_path(home),
{
    let home: Option<String> = home_dir_text();
    resolve_from(home)
}

} // verus!
