use git_pro::error::GitProError;
use git_pro::workflow::{check_repository_state, plan_commit, plan_recommit};

#[test]
fn commit_on_clean_tree_is_nothing_to_commit() {
    assert_eq!(plan_commit(true, 0), Err(GitProError::NothingToCommit));
}

#[test]
fn commit_with_changes_proceeds() {
    assert_eq!(plan_commit(true, 3), Ok(()));
}

#[test]
fn commit_during_merge_is_dirty() {
    assert_eq!(plan_commit(false, 3), Err(GitProError::DirtyState));
    assert_eq!(plan_commit(false, 0), Err(GitProError::DirtyState));
    assert_eq!(check_repository_state(false), Err(GitProError::DirtyState));
    assert_eq!(check_repository_state(true), Ok(()));
}

#[test]
fn recommit_without_commits_fails() {
    assert_eq!(plan_recommit(false), Err(GitProError::NoCommits));
    assert_eq!(plan_recommit(true), Ok(()));
}

#[test]
fn error_messages() {
    assert_eq!(GitProError::NoCommits.message(), "No commits found");
    assert_eq!(GitProError::BackendError("boom".to_string()).message(), "Git error: boom");
}

#[test]
fn commit_parent_is_head() {
    assert_eq!(git_pro::workflow::commit_parents(Some(7u32)), vec![7u32]);
    assert!(git_pro::workflow::commit_parents::<u32>(None).is_empty());
}
