use crate::branch::BranchInfo;
use crate::error::GitProError;
use vstd::prelude::*;

verus! {

#[verifier::external_type_specification]
#[verifier::external_body]
pub struct ExRegex(regex::Regex);

/// Whether `regex::Regex::new` accepts the pattern.
pub uninterp spec fn regex_compiles(pattern: Seq<char>) -> bool;

/// Whether the compiled pattern matches somewhere in the haystack.
pub uninterp spec fn regex_finds(pattern: Seq<char>, haystack: Seq<char>) -> bool;

/// A compiled branch pattern. A branch matches when the regular expression
/// matches anywhere in its name; anchor it with `^` and `$` for a match of
/// the whole name.
pub struct BranchPattern {
    source: String,
    compiled: regex::Regex,
}

impl View for BranchPattern {
    type V = Seq<char>;

    closed spec fn view(&self) -> Seq<char> {
        self.source@
    }
}

impl BranchPattern {
    /// Relies on `regex::Regex::new`: whether it accepts a pattern depends on
    /// the pattern alone.
    #[verifier::external_body]
    pub(crate) fn compile(pattern: &str) -> (r: Option<BranchPattern>)
        ensures
            r is Some <==> regex_compiles(pattern@),
            r matches Some(p) ==> p@ == pattern@,
    {
        regex::Regex::new(pattern).ok().map(
            |compiled| BranchPattern { source: pattern.to_string(), compiled },
        )
    }

    /// Relies on `regex::Regex::is_match`: whether the regex matches anywhere
    /// in the haystack.
    #[verifier::external_body]
    pub(crate) fn is_match(&self, haystack: &str) -> (r: bool)
        ensures
            r == regex_finds(self@, haystack@),
    {
        self.compiled.is_match(haystack)
    }
}

/// The names of the branches that are flagged and not checked out, in the
/// order of the listing.
pub open spec fn chosen(bs: Seq<BranchInfo>, flags: Seq<bool>) -> Seq<Seq<char>>
    decreases bs.len(),
{
    if bs.len() == 0 || flags.len() == 0 {
        Seq::empty()
    } else {
        let rest = chosen(bs.drop_last(), flags.take(bs.len() - 1));
        if bs.last().is_current || flags.len() < bs.len() || !flags[bs.len() - 1] {
            rest
        } else {
            rest.push(bs.last().name@)
        }
    }
}

/// Per branch of the listing, whether the pattern matches its name.
pub open spec fn match_flags(pattern: Seq<char>, bs: Seq<BranchInfo>) -> Seq<bool> {
    bs.map_values(|b: BranchInfo| regex_finds(pattern, b.name@))
}

/// The branches that a pattern deletes, given for each branch of the listing
/// whether the pattern matched its name: the matched ones, less the
/// checked-out one, in the order of the listing.
pub fn select_matched(bs: &Vec<BranchInfo>, matched: &Vec<bool>) -> (r: Vec<String>)
    requires
        matched@.len() == bs@.len(),
    ensures
        r@.map_values(|s: String| s@) == chosen(bs@, matched@),
{
    let mut r: Vec<String> = Vec::new();
    let mut i: usize = 0;
    while i < bs.len()
        invariant
            i <= bs.len(),
            matched@.len() == bs@.len(),
            r@.map_values(|s: String| s@) == chosen(bs@.take(i as int), matched@.take(i as int)),
        decreases bs.len() - i,
    {
        proof {
            let bt = bs@.take(i as int + 1);
            let ft = matched@.take(i as int + 1);
            assert(bt.drop_last() == bs@.take(i as int));
            assert(ft.take(i as int) == matched@.take(i as int));
        }
        if matched[i] && !bs[i].is_current {
            r.push(bs[i].name.clone());
            proof {
                assert(r@.map_values(|s: String| s@) == r@.drop_last().map_values(|s: String| s@).push(
                    r@.last()@,
                ));
            }
        }
        i = i + 1;
    }
    proof {
        assert(bs@.take(bs@.len() as int) == bs@);
        assert(matched@.take(bs@.len() as int) == matched@);
    }
    r
}

/// The branches that the pattern deletes: those whose name it matches, less
/// the checked-out one, in the order of the listing. An invalid pattern is
/// refused before anything is chosen.
pub fn deletion_candidates(bs: &Vec<BranchInfo>, pattern: &str) -> (r: Result<Vec<String>, GitProError>)
    ensures
        r is Err <==> !regex_compiles(pattern@),
        r is Err ==> r == Err::<Vec<String>, GitProError>(GitProError::InvalidPattern),
        r matches Ok(v) ==> v@.map_values(|s: String| s@) == chosen(bs@, match_flags(pattern@, bs@)),
{
    let compiled = match BranchPattern::compile(pattern) {
        Some(p) => p,
        None => return Err(GitProError::InvalidPattern),
    };
    let mut matched: Vec<bool> = Vec::new();
    let mut i: usize = 0;
    while i < bs.len()
        invariant
            i <= bs.len(),
            compiled@ == pattern@,
            matched@ == match_flags(pattern@, bs@.take(i as int)),
        decreases bs.len() - i,
    {
        let m = compiled.is_match(bs[i].name.as_str());
        matched.push(m);
        proof {
            assert(bs@.take(i as int + 1) == bs@.take(i as int).push(bs@[i as int]));
        }
        i = i + 1;
    }
    proof {
        assert(bs@.take(bs@.len() as int) == bs@);
    }
    Ok(select_matched(bs, &matched))
}

/// Some branch of the listing has that name, is flagged, and is not checked
/// out.
pub open spec fn flagged_other(bs: Seq<BranchInfo>, flags: Seq<bool>, name: Seq<char>) -> bool {
    exists|i: int| 0 <= i < bs.len() && flags[i] && !bs[i].is_current && (#[trigger] bs[i]).name@ == name
}

/// Every branch that a pattern chooses is listed, matched, and not checked
/// out.
pub proof fn lemma_chosen_are_matched(bs: Seq<BranchInfo>, flags: Seq<bool>)
    requires
        flags.len() == bs.len(),
    ensures
        forall|k: int| 0 <= k < chosen(bs, flags).len() ==> flagged_other(bs, flags, #[trigger] chosen(bs, flags)[k]),
    decreases bs.len(),
{
    if bs.len() > 0 {
        let n = bs.len() - 1;
        let bt = bs.drop_last();
        let ft = flags.take(n);
        lemma_chosen_are_matched(bt, ft);
        let rest = chosen(bt, ft);
        assert forall|k: int| 0 <= k < chosen(bs, flags).len() implies flagged_other(bs, flags, #[trigger] chosen(bs, flags)[k]) by {
            if k < rest.len() {
                assert(chosen(bs, flags)[k] == rest[k]);
                assert(flagged_other(bt, ft, rest[k]));
                let i = choose|i: int| 0 <= i < bt.len() && ft[i] && !bt[i].is_current && (#[trigger] bt[i]).name@ == rest[k];
                assert(bs[i] == bt[i]);
                assert(flags[i] == ft[i]);
            } else {
                assert(bs[n].name@ == chosen(bs, flags)[k]);
            }
        }
    }
}

/// Deleting by pattern never deletes the checked-out branch: where names are
/// unique, its name is not among those chosen, whatever was matched.
pub proof fn lemma_pattern_spares_current(bs: Seq<BranchInfo>, flags: Seq<bool>, c: int)
    requires
        flags.len() == bs.len(),
        0 <= c < bs.len(),
        bs[c].is_current,
        forall|i: int, j: int|
            0 <= i < bs.len() && 0 <= j < bs.len() && (#[trigger] bs[i]).name@ == (#[trigger] bs[j]).name@ ==> i == j,
    ensures
        !chosen(bs, flags).contains(bs[c].name@),
{
    lemma_chosen_are_matched(bs, flags);
    if chosen(bs, flags).contains(bs[c].name@) {
        let k = choose|k: int| 0 <= k < chosen(bs, flags).len() && chosen(bs, flags)[k] == bs[c].name@;
        assert(flagged_other(bs, flags, chosen(bs, flags)[k]));
        let i = choose|i: int|
            0 <= i < bs.len() && flags[i] && !bs[i].is_current && (#[trigger] bs[i]).name@ == chosen(bs, flags)[k];
        assert(bs[i].name@ == bs[c].name@);
    }
}

/// Whether deleting the chosen branches waits for the user to confirm: only
/// when something would be deleted and `force` is not set.
pub fn needs_confirmation(candidates: &Vec<String>, force: bool) -> (r: bool)
    ensures
        r == (!force && candidates@.len() > 0),
{
    !force && candidates.len() > 0
}

/// The branches to delete: all the chosen ones when forced or confirmed,
/// none otherwise.
pub fn confirmed_deletions(candidates: Vec<String>, force: bool, confirmed: bool) -> (r: Vec<String>)
    ensures
        force || confirmed ==> r@ == candidates@,
        !(force || confirmed) ==> r@.len() == 0,
{
    if force || confirmed {
        candidates
    } else {
        Vec::new()
    }
}

/// Whether an answer to the deletion prompt confirms it: `y` or `yes`, with
/// any line ending removed.
pub fn is_confirmation(answer: &str) -> (r: bool)
    ensures
        r == (answer@ == "y"@ || answer@ == "yes"@ || answer@ == "y\n"@ || answer@ == "yes\n"@
            || answer@ == "y\r\n"@ || answer@ == "yes\r\n"@),
{
    let a = answer.to_owned();
    a == String::from_str("y") || a == String::from_str("yes") || a == String::from_str("y\n")
        || a == String::from_str("yes\n") || a == String::from_str("y\r\n")
        || a == String::from_str("yes\r\n")
}

} // verus!
