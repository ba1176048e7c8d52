//! Pre-release checks on the project.
use crate::text::{chars_of, contains, contains_exec, lines, lines_of, views};
use std::path::PathBuf;
use vstd::prelude::*;

verus! {

/// A debt marker line carries a tracking tag: `TODO(#<issue>)` or `TODO[...]`.
pub open spec fn is_tagged_debt(line: Seq<char>) -> bool {
    contains(line, "TODO(#"@) || contains(line, "TODO["@)
}

/// How many of `ls` lack a tracking tag.
pub open spec fn untagged_count(ls: Seq<Seq<char>>) -> nat
    decreases ls.len(),
{
    if ls.len() == 0 {
        0
    } else {
        untagged_count(ls.drop_last()) + if is_tagged_debt(ls.last()) {
            0nat
        } else {
            1nat
        }
    }
}

pub struct ConstitutionCheck {
    root: PathBuf,
}

impl ConstitutionCheck {
    pub fn new(root: PathBuf) -> (r: Self) {
        ConstitutionCheck { root }
    }

    /// The project root that the checks run in.
    pub fn root(&self) -> &PathBuf {
        &self.root
    }

    /// How many lines of a search for debt markers (one match per line) lack
    /// a tracking tag.
    pub fn count_untagged_debt(&self, matches: &str) -> (r: usize)
        ensures
            r == untagged_count(lines(matches@)),
    {
        let ls = lines_of(&chars_of(matches));
        let ghost lv = views(ls@);
        let paren = chars_of("TODO(#");
        let bracket = chars_of("TODO[");
        let mut n: usize = 0;
        let mut i: usize = 0;
        while i < ls.len()
            invariant
                i <= ls.len(),
                lv == views(ls@),
                paren@ == "TODO(#"@,
                bracket@ == "TODO["@,
                n == untagged_count(lv.subrange(0, i as int)),
                n <= i,
            decreases ls.len() - i,
        {
            proof {
                assert(lv.subrange(0, i + 1).drop_last() =~= lv.subrange(0, i as int));
                assert(lv.subrange(0, i + 1).last() == ls@[i as int]@);
            }
            if !(contains_exec(&ls[i], &paren) || contains_exec(&ls[i], &bracket)) {
                n = n + 1;
            }
            i = i + 1;
        }
        assert(lv.subrange(0, i as int) =~= lv);
        n
    }

    /// Whether the project carries no untagged debt markers.
    pub fn no_untagged_debt(&self, matches: &str) -> (r: bool)
        ensures
            r == (untagged_count(lines(matches@)) == 0),
    {
        self.count_untagged_debt(matches) == 0
    }

    /// Verdict over the individual checks: a release may go ahead only with a
    /// clean working tree and a passing test suite.
    pub fn run_all(&self, clean_git: bool, tests_pass: bool) -> (r: bool)
        ensures
            r == (clean_git && tests_pass),
    {
        clean_git && tests_pass
    }
}

} // verus!
