use vstd::prelude::*;
use vstd::string::StringExecFns;

verus! {

/// What the filesystem reported about a path.
#[derive(Clone, Copy, Debug, PartialEq, Eq, Structural)]
pub enum PathState {
    Missing,
    NotDirectory,
    Directory { has_entry: bool },
}

/// Why a path cannot be asked whether it is an empty directory.
#[derive(Clone, Copy, Debug, PartialEq, Eq, Structural)]
pub enum DirCheckError {
    NotFound,
    NotADirectory,
}

/// The message shown for `e` about `path`.
pub open spec fn error_text(e: DirCheckError, path: Seq<char>) -> Seq<char> {
    match e {
        DirCheckError::NotFound => "Path does not exist: "@ + path,
        DirCheckError::NotADirectory => "Path is not a directory: "@ + path,
    }
}

impl DirCheckError {
    /// The message shown to the user for this error about `path`.
    pub fn message(&self, path: &str) -> (r: String)
        ensures
            r@ == error_text(*self, path@),
    {
        let mut r = match self {
            DirCheckError::NotFound => String::from_str("Path does not exist: "),
            DirCheckError::NotADirectory => String::from_str("Path is not a directory: "),
        };
        r.append(path);
        r
    }
}

/// Whether a path is an empty directory: an error where the path is missing
/// or is no directory, otherwise `true` exactly when it has no entry.
pub fn dir_emptiness(state: PathState) -> (r: Result<bool, DirCheckError>)
    ensures
        match state {
            PathState::Missing => r == Err::<bool, DirCheckError>(DirCheckError::NotFound),
            PathState::NotDirectory => r == Err::<bool, DirCheckError>(DirCheckError::NotADirectory),
            PathState::Directory { has_entry } => r == Ok::<bool, DirCheckError>(!has_entry),
        },
{
    match state {
        PathState::Missing => Err(DirCheckError::NotFound),
        PathState::NotDirectory => Err(DirCheckError::NotADirectory),
        PathState::Directory { has_entry } => Ok(!has_entry),
    }
}

} // verus!
