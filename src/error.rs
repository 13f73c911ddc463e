use vstd::prelude::*;

verus! {

/// Every way an operation of the tool can fail.
#[derive(Debug, Clone, PartialEq, Eq)]
pub enum GitProError {
    /// The working directory is not inside a repository.
    NotARepository,
    /// A merge, rebase or similar operation is in progress.
    DirtyState,
    /// The working tree holds no change to commit.
    NothingToCommit,
    /// HEAD has no commit.
    NoCommits,
    /// A local branch of that name already exists.
    BranchExists,
    /// No local branch of that name exists.
    BranchNotFound,
    /// The base reference does not name a commit.
    InvalidBase,
    /// The branch pattern is not a valid regular expression.
    InvalidPattern,
    /// A failure reported by the version-control backend.
    BackendError(String),
}

impl GitProError {
    /// The human-readable text of the error.
    pub fn message(&self) -> (r: String)
        ensures
            self matches GitProError::BackendError(d) ==> r@ == "Git error: "@ + d@,
            self is NotARepository ==> r@ == "Not a git repository"@,
            self is DirtyState ==> r@ == "Repository is not in a clean state"@,
            self is NothingToCommit ==> r@ == "Nothing to commit"@,
            self is NoCommits ==> r@ == "No commits found"@,
            self is BranchExists ==> r@ == "Branch already exists"@,
            self is BranchNotFound ==> r@ == "Branch not found"@,
            self is InvalidBase ==> r@ == "Base does not resolve to a commit"@,
            self is InvalidPattern ==> r@ == "Invalid branch pattern"@,
    {
        match self {
            GitProError::NotARepository => String::from_str("Not a git repository"),
            GitProError::DirtyState => String::from_str("Repository is not in a clean state"),
            GitProError::NothingToCommit => String::from_str("Nothing to commit"),
            GitProError::NoCommits => String::from_str("No commits found"),
            GitProError::BranchExists => String::from_str("Branch already exists"),
            GitProError::BranchNotFound => String::from_str("Branch not found"),
            GitProError::InvalidBase => String::from_str("Base does not resolve to a commit"),
            GitProError::InvalidPattern => String::from_str("Invalid branch pattern"),
            GitProError::BackendError(detail) => {
                let mut s = String::from_str("Git error: ");
                s.append(detail.as_str());
                s
            },
        }
    }
}

} // verus!
