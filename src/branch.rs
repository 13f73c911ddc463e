use crate::error::GitProError;
use vstd::multiset::Multiset;
use vstd::prelude::*;

verus! {

/// A local branch as listed: its name, and whether it is checked out.
#[derive(Debug, Clone)]
pub struct BranchInfo {
    pub name: String,
    pub is_current: bool,
}

/// Some branch of the listing has that name.
pub open spec fn listed(bs: Seq<BranchInfo>, name: Seq<char>) -> bool {
    exists|i: int| 0 <= i < bs.len() && (#[trigger] bs[i]).name@ == name
}

/// Some branch of the listing has that name and is checked out.
pub open spec fn listed_current(bs: Seq<BranchInfo>, name: Seq<char>) -> bool {
    exists|i: int| 0 <= i < bs.len() && (#[trigger] bs[i]).name@ == name && bs[i].is_current
}

/// The listing that the names give when `current` is the checked-out branch.
pub open spec fn marked(names: Seq<String>, current: Seq<char>) -> Seq<BranchInfo> {
    names.map_values(|n: String| BranchInfo { name: n, is_current: n@ == current })
}

/// What the switch-or-create shortcut does with a name.
#[derive(Debug, Clone, Copy, PartialEq, Eq)]
pub enum SwitchPlan {
    /// The branch exists: switch to it.
    Switch,
    /// The branch does not exist: create it at HEAD, then switch to it.
    CreateAndSwitch,
}

impl BranchInfo {
    /// The line that shows the branch in a listing: `* name` for the
    /// checked-out branch, `  name` for the others.
    pub fn render(&self) -> (r: String)
        ensures
            self.is_current ==> r@ == "* "@ + self.name@,
            !self.is_current ==> r@ == "  "@ + self.name@,
    {
        let mut s = if self.is_current {
            String::from_str("* ")
        } else {
            String::from_str("  ")
        };
        s.append(self.name.as_str());
        s
    }
}

/// Marks, among the names of the local branches, the one that HEAD names.
/// The order of the names is kept.
pub fn mark_current(names: Vec<String>, current: &String) -> (r: Vec<BranchInfo>)
    ensures
        r@ == marked(names@, current@),
{
    let mut r: Vec<BranchInfo> = Vec::new();
    let mut i: usize = 0;
    while i < names.len()
        invariant
            i <= names.len(),
            r@ == marked(names@.take(i as int), current@),
        decreases names.len() - i,
    {
        let n = names[i].clone();
        let cur = n == *current;
        r.push(BranchInfo { name: n, is_current: cur });
        proof {
            assert(names@.take(i as int + 1) == names@.take(i as int).push(names@[i as int]));
        }
        i = i + 1;
    }
    proof {
        assert(names@.take(names@.len() as int) == names@);
    }
    r
}

/// `a` comes no later than `b` in lexicographic order of code points, the
/// order of `str`'s `Ord`.
pub open spec fn name_le(a: Seq<char>, b: Seq<char>) -> bool
    decreases a.len(),
{
    if a.len() == 0 {
        true
    } else if b.len() == 0 {
        false
    } else if a[0] != b[0] {
        (a[0] as u32) < (b[0] as u32)
    } else {
        name_le(a.drop_first(), b.drop_first())
    }
}

/// The names that a sequence of strings holds, as a multiset.
pub open spec fn name_bag(v: Seq<String>) -> Multiset<Seq<char>> {
    v.map_values(|s: String| s@).to_multiset()
}

/// Relies on `slice::sort`: the same strings, in ascending order.
#[verifier::external_body]
fn sort_names(v: Vec<String>) -> (r: Vec<String>)
    ensures
        name_bag(r@) == name_bag(v@),
        forall|i: int, j: int| 0 <= i < j < r@.len() ==> name_le(#[trigger] r@[i]@, #[trigger] r@[j]@),
{
    let mut v = v;
    v.sort();
    v
}

/// The listing of the local branches: their names in ascending order, the
/// one that HEAD names marked as current.
pub fn listing(names: Vec<String>, current: &String) -> (r: Vec<BranchInfo>)
    ensures
        r@.map_values(|b: BranchInfo| b.name@).to_multiset() == name_bag(names@),
        forall|i: int, j: int| 0 <= i < j < r@.len() ==> name_le(#[trigger] r@[i].name@, #[trigger] r@[j].name@),
        forall|i: int| 0 <= i < r@.len() ==> (#[trigger] r@[i]).is_current == (r@[i].name@ == current@),
{
    let sorted = sort_names(names);
    let r = mark_current(sorted, current);
    proof {
        assert(r@.map_values(|b: BranchInfo| b.name@) =~= sorted@.map_values(|s: String| s@));
        assert forall|i: int, j: int| 0 <= i < j < r@.len() implies name_le(#[trigger] r@[i].name@, #[trigger] r@[j].name@) by {
            assert(r@[i].name == sorted@[i]);
            assert(r@[j].name == sorted@[j]);
        }
    }
    r
}

/// The position of the branch of that name in the listing, if any.
pub fn find_branch(bs: &Vec<BranchInfo>, name: &String) -> (r: Option<usize>)
    ensures
        r is Some <==> listed(bs@, name@),
        r matches Some(i) ==> i < bs@.len() && bs@[i as int].name@ == name@,
{
    let mut i: usize = 0;
    while i < bs.len()
        invariant
            i <= bs.len(),
            forall|j: int| 0 <= j < i ==> (#[trigger] bs@[j]).name@ != name@,
        decreases bs.len() - i,
    {
        if bs[i].name == *name {
            return Some(i);
        }
        i = i + 1;
    }
    None
}

/// Whether a new branch of that name may be created on a base, given
/// whether the base resolved to a commit. The name is checked first.
pub fn plan_create(bs: &Vec<BranchInfo>, name: &String, base_found: bool) -> (r: Result<(), GitProError>)
    ensures
        r is Ok <==> !listed(bs@, name@) && base_found,
        listed(bs@, name@) ==> r == Err::<(), GitProError>(GitProError::BranchExists),
        !listed(bs@, name@) && !base_found ==> r == Err::<(), GitProError>(GitProError::InvalidBase),
{
    match find_branch(bs, name) {
        Some(_) => Err(GitProError::BranchExists),
        None => if base_found {
            Ok(())
        } else {
            Err(GitProError::InvalidBase)
        },
    }
}

/// Whether HEAD may be switched to the branch of that name.
pub fn plan_switch(bs: &Vec<BranchInfo>, name: &String) -> (r: Result<(), GitProError>)
    ensures
        r is Ok <==> listed(bs@, name@),
        r is Err ==> r == Err::<(), GitProError>(GitProError::BranchNotFound),
{
    match find_branch(bs, name) {
        Some(_) => Ok(()),
        None => Err(GitProError::BranchNotFound),
    }
}

/// The switch-or-create shortcut: switch where the branch exists, else
/// create it and switch.
pub fn plan_switch_or_create(bs: &Vec<BranchInfo>, name: &String) -> (r: SwitchPlan)
    ensures
        r == SwitchPlan::Switch <==> listed(bs@, name@),
        r == SwitchPlan::CreateAndSwitch <==> !listed(bs@, name@),
{
    match find_branch(bs, name) {
        Some(_) => SwitchPlan::Switch,
        None => SwitchPlan::CreateAndSwitch,
    }
}

/// Whether the branch of that name is listed as checked out.
pub fn is_checked_out(bs: &Vec<BranchInfo>, name: &String) -> (r: bool)
    ensures
        r == listed_current(bs@, name@),
{
    let mut i: usize = 0;
    while i < bs.len()
        invariant
            i <= bs.len(),
            forall|j: int| 0 <= j < i ==> !((#[trigger] bs@[j]).name@ == name@ && bs@[j].is_current),
        decreases bs.len() - i,
    {
        if bs[i].is_current && bs[i].name == *name {
            return true;
        }
        i = i + 1;
    }
    false
}

/// Whether the branch of that name may be deleted: it must exist and must
/// not be checked out.
pub fn plan_delete(bs: &Vec<BranchInfo>, name: &String) -> (r: Result<(), GitProError>)
    ensures
        r is Ok <==> listed(bs@, name@) && !listed_current(bs@, name@),
        !listed(bs@, name@) ==> r == Err::<(), GitProError>(GitProError::BranchNotFound),
        listed_current(bs@, name@) ==> (r matches Err(GitProError::BackendError(_))),
{
    if find_branch(bs, name).is_none() {
        Err(GitProError::BranchNotFound)
    } else if is_checked_out(bs, name) {
        Err(GitProError::BackendError(String::from_str("cannot delete the checked-out branch")))
    } else {
        Ok(())
    }
}

/// Whether the branch `old_name` may be renamed to `new_name`.
pub fn plan_rename(bs: &Vec<BranchInfo>, old_name: &String, new_name: &String) -> (r: Result<(), GitProError>)
    ensures
        r is Ok <==> listed(bs@, old_name@) && !listed(bs@, new_name@),
        !listed(bs@, old_name@) ==> r == Err::<(), GitProError>(GitProError::BranchNotFound),
        listed(bs@, old_name@) && listed(bs@, new_name@) ==> r == Err::<(), GitProError>(GitProError::BranchExists),
{
    if find_branch(bs, old_name).is_none() {
        return Err(GitProError::BranchNotFound);
    }
    if find_branch(bs, new_name).is_some() {
        return Err(GitProError::BranchExists);
    }
    Ok(())
}

} // verus!

verus! {

/// The set of names of a listing.
pub open spec fn name_set(bs: Seq<BranchInfo>) -> Set<Seq<char>> {
    bs.map_values(|b: BranchInfo| b.name@).to_set()
}

/// The switch-or-create shortcut adds no branch when the name is listed, and
/// exactly one, of that name, when it is not.
pub proof fn lemma_switch_or_create_branch_count(bs: Seq<BranchInfo>, name: Seq<char>)
    ensures
        listed(bs, name) ==> name_set(bs).insert(name) == name_set(bs),
        !listed(bs, name) ==> name_set(bs).insert(name).len() == name_set(bs).len() + 1,
        name_set(bs).insert(name).contains(name),
        name_set(bs) <= name_set(bs).insert(name),
{
    let names = bs.map_values(|b: BranchInfo| b.name@);
    if listed(bs, name) {
        let i = choose|i: int| 0 <= i < bs.len() && (#[trigger] bs[i]).name@ == name;
        assert(names[i] == name);
        assert(name_set(bs).contains(name));
        assert(name_set(bs).insert(name) =~= name_set(bs));
    } else {
        assert(!name_set(bs).contains(name)) by {
            if name_set(bs).contains(name) {
                let i = choose|i: int| 0 <= i < names.len() && names[i] == name;
                assert(bs[i].name@ == name);
            }
        }
        assert(name_set(bs).finite()) by {
            vstd::seq_lib::seq_to_set_is_finite(names);
        }
    }
}

} // verus!
