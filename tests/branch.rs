use git_pro::branch::{
    find_branch, is_checked_out, mark_current, plan_create, plan_delete, plan_rename, plan_switch,
    plan_switch_or_create, BranchInfo, SwitchPlan,
};
use git_pro::error::GitProError;

fn listing() -> Vec<BranchInfo> {
    mark_current(
        vec!["feature/a".to_string(), "feature/b".to_string(), "main".to_string()],
        &"main".to_string(),
    )
}

#[test]
fn mark_current_flags_only_head() {
    let bs = listing();
    assert_eq!(bs.len(), 3);
    assert_eq!(bs[0].name, "feature/a");
    assert!(!bs[0].is_current);
    assert!(!bs[1].is_current);
    assert_eq!(bs[2].name, "main");
    assert!(bs[2].is_current);
}

#[test]
fn mark_current_empty_listing() {
    assert!(mark_current(vec![], &"main".to_string()).is_empty());
}

#[test]
fn render_marks_current_branch() {
    let bs = listing();
    assert_eq!(bs[2].render(), "* main");
    assert_eq!(bs[0].render(), "  feature/a");
}

#[test]
fn find_branch_positions() {
    let bs = listing();
    assert_eq!(find_branch(&bs, &"feature/b".to_string()), Some(1));
    assert_eq!(find_branch(&bs, &"feature".to_string()), None);
    assert!(is_checked_out(&bs, &"main".to_string()));
    assert!(!is_checked_out(&bs, &"feature/a".to_string()));
}

#[test]
fn create_existing_name_is_refused() {
    let bs = listing();
    assert_eq!(plan_create(&bs, &"main".to_string(), true), Err(GitProError::BranchExists));
    assert_eq!(plan_create(&bs, &"main".to_string(), false), Err(GitProError::BranchExists));
}

#[test]
fn create_new_name_needs_a_base() {
    let bs = listing();
    assert_eq!(plan_create(&bs, &"topic".to_string(), true), Ok(()));
    assert_eq!(plan_create(&bs, &"topic".to_string(), false), Err(GitProError::InvalidBase));
}

#[test]
fn switch_needs_existing_branch() {
    let bs = listing();
    assert_eq!(plan_switch(&bs, &"feature/a".to_string()), Ok(()));
    assert_eq!(plan_switch(&bs, &"nope".to_string()), Err(GitProError::BranchNotFound));
}

#[test]
fn switch_or_create_on_existing_only_switches() {
    let bs = listing();
    assert_eq!(plan_switch_or_create(&bs, &"feature/a".to_string()), SwitchPlan::Switch);
}

#[test]
fn switch_or_create_on_new_name_creates() {
    let bs = listing();
    assert_eq!(plan_switch_or_create(&bs, &"topic".to_string()), SwitchPlan::CreateAndSwitch);
}

#[test]
fn delete_missing_branch_is_not_found() {
    let bs = listing();
    assert_eq!(plan_delete(&bs, &"nope".to_string()), Err(GitProError::BranchNotFound));
}

#[test]
fn delete_current_branch_fails() {
    let bs = listing();
    assert!(matches!(plan_delete(&bs, &"main".to_string()), Err(GitProError::BackendError(_))));
}

#[test]
fn delete_other_branch_is_allowed() {
    let bs = listing();
    assert_eq!(plan_delete(&bs, &"feature/b".to_string()), Ok(()));
}

#[test]
fn rename_rules() {
    let bs = listing();
    assert_eq!(plan_rename(&bs, &"nope".to_string(), &"x".to_string()), Err(GitProError::BranchNotFound));
    assert_eq!(plan_rename(&bs, &"feature/a".to_string(), &"main".to_string()), Err(GitProError::BranchExists));
    assert_eq!(plan_rename(&bs, &"feature/a".to_string(), &"feature/c".to_string()), Ok(()));
}

#[test]
fn listing_sorts_names_and_marks_head() {
    let bs = git_pro::branch::listing(
        vec!["main".to_string(), "feature/b".to_string(), "Zeta".to_string(), "feature/a".to_string()],
        &"feature/b".to_string(),
    );
    let names: Vec<&str> = bs.iter().map(|b| b.name.as_str()).collect();
    assert_eq!(names, vec!["Zeta", "feature/a", "feature/b", "main"]);
    let current: Vec<bool> = bs.iter().map(|b| b.is_current).collect();
    assert_eq!(current, vec![false, false, true, false]);
}
