use vstd::prelude::*;

verus! {

/// The failure categories of the scaffolder. Each category carries its own
/// nonzero process exit code and a human-readable message.
#[derive(Clone, Copy, Debug, PartialEq, Eq, Structural)]
pub enum ScaffoldError {
    /// The command line did not name the `create` subcommand with a project
    /// name, or the project name is empty or whitespace-only.
    BadArguments,
    /// An interactive prompt could not be presented, or no valid choice
    /// was made.
    PromptFailed,
    /// The chosen configuration has no template in the registry.
    UnknownCombination,
    /// The target directory already exists.
    DirectoryCollision,
    /// The clone subprocess could not be launched or exited with failure.
    CloneFailed,
    /// A post-clone setup step could not be launched or exited with failure.
    PostProcessFailed,
}

impl ScaffoldError {
    /// The process exit code of this failure: nonzero, distinct per category.
    pub open spec fn spec_exit_code(self) -> u8 {
        match self {
            ScaffoldError::BadArguments => 2,
            ScaffoldError::PromptFailed => 3,
            ScaffoldError::UnknownCombination => 4,
            ScaffoldError::DirectoryCollision => 5,
            ScaffoldError::CloneFailed => 6,
            ScaffoldError::PostProcessFailed => 7,
        }
    }

    pub fn exit_code(self) -> (c: u8)
        ensures
            c == self.spec_exit_code(),
            c != 0,
    {
        match self {
            ScaffoldError::BadArguments => 2,
            ScaffoldError::PromptFailed => 3,
            ScaffoldError::UnknownCombination => 4,
            ScaffoldError::DirectoryCollision => 5,
            ScaffoldError::CloneFailed => 6,
            ScaffoldError::PostProcessFailed => 7,
        }
    }

    /// The diagnostic message of this failure.
    pub open spec fn spec_message(self) -> Seq<char> {
        match self {
            ScaffoldError::BadArguments => "Failed to read command"@,
            ScaffoldError::PromptFailed => "Failed to present an interactive prompt"@,
            ScaffoldError::UnknownCombination => "unknown combination"@,
            ScaffoldError::DirectoryCollision => "target directory already exists"@,
            ScaffoldError::CloneFailed => "failed to clone the template repository"@,
            ScaffoldError::PostProcessFailed => "failed to set up the cloned template"@,
        }
    }

    pub fn message(self) -> (m: String)
        ensures
            m@ == self.spec_message(),
    {
        match self {
            ScaffoldError::BadArguments => "Failed to read command".to_owned(),
            ScaffoldError::PromptFailed => "Failed to present an interactive prompt".to_owned(),
            ScaffoldError::UnknownCombination => "unknown combination".to_owned(),
            ScaffoldError::DirectoryCollision => "target directory already exists".to_owned(),
            ScaffoldError::CloneFailed => "failed to clone the template repository".to_owned(),
            ScaffoldError::PostProcessFailed => "failed to set up the cloned template".to_owned(),
        }
    }
}

/// Exit codes are pairwise distinct across the failure categories, and none
/// collides with the success code 0.
pub proof fn lemma_exit_codes_distinct(a: ScaffoldError, b: ScaffoldError)
    ensures
        a.spec_exit_code() != 0,
        a != b ==> a.spec_exit_code() != b.spec_exit_code(),
{
}

} // verus!
