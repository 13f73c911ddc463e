use crate::error::GitProError;
use vstd::prelude::*;

verus! {

/// A repository may be changed only when no merge, rebase or similar
/// operation is in progress.
pub fn check_repository_state(clean: bool) -> (r: Result<(), GitProError>)
    ensures
        r is Ok <==> clean,
        !clean ==> r == Err::<(), GitProError>(GitProError::DirtyState),
{
    if clean {
        Ok(())
    } else {
        Err(GitProError::DirtyState)
    }
}

/// Whether commit-all may stage and commit, given the repository state and
/// the number of changed entries of the working tree, untracked files
/// included. The state is checked first.
pub fn plan_commit(clean: bool, changes: usize) -> (r: Result<(), GitProError>)
    ensures
        r is Ok <==> clean && changes > 0,
        !clean ==> r == Err::<(), GitProError>(GitProError::DirtyState),
        clean && changes == 0 ==> r == Err::<(), GitProError>(GitProError::NothingToCommit),
{
    check_repository_state(clean)?;
    if changes == 0 {
        return Err(GitProError::NothingToCommit);
    }
    Ok(())
}

/// The parents of the commit that commit-all creates: the commit at HEAD,
/// or none when the repository has no commit yet.
pub fn commit_parents<T>(head: Option<T>) -> (r: Vec<T>)
    ensures
        head matches Some(c) ==> r@ == seq![c],
        head is None ==> r@.len() == 0,
{
    let mut r: Vec<T> = Vec::new();
    if let Some(c) = head {
        r.push(c);
    }
    r
}

/// Whether the message of the tip commit may be rewritten: HEAD must name a
/// commit.
pub fn plan_recommit(head_has_commit: bool) -> (r: Result<(), GitProError>)
    ensures
        r is Ok <==> head_has_commit,
        !head_has_commit ==> r == Err::<(), GitProError>(GitProError::NoCommits),
{
    if head_has_commit {
        Ok(())
    } else {
        Err(GitProError::NoCommits)
    }
}

} // verus!
