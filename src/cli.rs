//! The command line and what a run does with it.
use vstd::prelude::*;
use vstd::string::StringExecFns;

verus! {

/// List files and directories in the current directory.
pub struct Cli {
    /// Display version information and exit.
    pub version: bool,
    /// List files only (accepted; the listing does not filter on it).
    pub files: bool,
    /// List directories only (accepted; the listing does not filter on it).
    pub directories: bool,
    /// Display absolute paths (accepted; paths are shown as enumerated).
    pub absolute_paths: bool,
}

/// What a run does.
#[derive(PartialEq, Eq, Structural, Clone, Copy, Debug)]
pub enum Action {
    /// Print the program's name and version, list nothing, and succeed.
    ShowVersion,
    /// Print the header and the listing of the working directory.
    List,
}

/// The action that `cli` asks for.
pub open spec fn action_of(cli: Cli) -> Action {
    if cli.version {
        Action::ShowVersion
    } else {
        Action::List
    }
}

impl Cli {
    /// The action this command line asks for: the version flag wins over
    /// everything else, so that no listing is attempted with it.
    pub fn action(&self) -> (r: Action)
        ensures
            r == action_of(*self),
            self.version ==> r == Action::ShowVersion,
            !self.version ==> r == Action::List,
    {
        if self.version {
            Action::ShowVersion
        } else {
            Action::List
        }
    }
}

/// The version line: the program's name, `-v`, and its version.
pub fn version_text(name: &str, version: &str) -> (r: String)
    ensures
        r@ == name@ + seq!['-', 'v'] + version@,
{
    proof { reveal_strlit("-v"); }
    let mut r = String::from_str(name);
    r.append("-v");
    r.append(version);
    r
}

/// The fatal failures of a listing, each with the description of its cause.
#[derive(PartialEq, Eq, Clone, Debug)]
pub enum ListError {
    /// The working directory could not be determined.
    WorkingDirectoryUnreadable(String),
    /// The directory's entries could not be enumerated.
    EnumerationFailed(String),
    /// An entry's metadata could not be read.
    MetadataUnreadable(String),
}

impl ListError {
    /// The description of the cause, as printed before exiting.
    pub fn message(&self) -> (r: String)
        ensures
            r@ == match *self {
                ListError::WorkingDirectoryUnreadable(m) => m@,
                ListError::EnumerationFailed(m) => m@,
                ListError::MetadataUnreadable(m) => m@,
            },
    {
        match self {
            ListError::WorkingDirectoryUnreadable(m) => m.clone(),
            ListError::EnumerationFailed(m) => m.clone(),
            ListError::MetadataUnreadable(m) => m.clone(),
        }
    }
}

/// The process exit code of a run's outcome: 0 on success, 1 on any error.
pub open spec fn exit_code_of(outcome: Result<(), ListError>) -> i32 {
    match outcome {
        Ok(()) => 0,
        Err(_) => 1,
    }
}

/// The process exit code of a run's outcome: 0 on success, 1 on any error.
pub fn exit_code(outcome: &Result<(), ListError>) -> (r: i32)
    ensures
        r == exit_code_of(*outcome),
{
    match outcome {
        Ok(()) => 0,
        Err(_) => 1,
    }
}

/// With the version flag a run lists nothing and exits with 0: whatever the
/// other flags, and whatever the working directory, the action is to print the
/// version, which succeeds, and success exits with 0.
pub proof fn lemma_version_flag_lists_nothing(cli: Cli)
    requires
        cli.version,
    ensures
        action_of(cli) == Action::ShowVersion,
        action_of(cli) != Action::List,
        exit_code_of(Ok(())) == 0,
{
}

} // verus!
