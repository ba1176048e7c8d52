//! The verification checks: build, then lint, then tests. A candidate fix is
//! accepted only if all three pass; checking stops at the first failure,
//! since a broken build makes the later checks meaningless.
use crate::heal::session::HealOutcome;
use std::path::PathBuf;
use vstd::prelude::*;

verus! {

/// One of the verification checks.
#[derive(Debug, Clone, Copy, PartialEq, Eq, Structural)]
pub enum GateCheck {
    Build,
    Lint,
    Test,
}

pub struct VerificationGate {
    root: PathBuf,
}

/// The check to run after the results `rs` (in check order), if any.
pub open spec fn next_check_spec(rs: Seq<bool>) -> Option<GateCheck> {
    if exists|i: int| 0 <= i < rs.len() && !rs[i] {
        None
    } else if rs.len() == 0 {
        Some(GateCheck::Build)
    } else if rs.len() == 1 {
        Some(GateCheck::Lint)
    } else if rs.len() == 2 {
        Some(GateCheck::Test)
    } else {
        None
    }
}

/// A fix is accepted when build, lint and tests all passed.
pub open spec fn accepts_spec(rs: Seq<bool>) -> bool {
    rs.len() == 3 && rs[0] && rs[1] && rs[2]
}

impl VerificationGate {
    pub fn new(root: PathBuf) -> (r: VerificationGate) {
        VerificationGate { root }
    }

    /// The project root that the checks run in.
    pub fn root(&self) -> &PathBuf {
        &self.root
    }

    /// The check to run next, given the results of those run so far; none
    /// once a check failed or all three ran.
    pub fn next_check(&self, results: &Vec<bool>) -> (r: Option<GateCheck>)
        ensures
            r == next_check_spec(results@),
    {
        let mut i: usize = 0;
        while i < results.len()
            invariant
                i <= results.len(),
                forall|j: int| 0 <= j < i ==> results@[j],
            decreases results.len() - i,
        {
            if !results[i] {
                return None;
            }
            i = i + 1;
        }
        if results.len() == 0 {
            Some(GateCheck::Build)
        } else if results.len() == 1 {
            Some(GateCheck::Lint)
        } else if results.len() == 2 {
            Some(GateCheck::Test)
        } else {
            None
        }
    }

    /// What one attempt came to, for its audit record: success when all
    /// checks passed, a compile failure when the build failed, a test failure
    /// when a later check failed.
    pub fn attempt_outcome(&self, results: &Vec<bool>) -> (r: HealOutcome)
        ensures
            accepts_spec(results@) ==> r == HealOutcome::Success,
            !accepts_spec(results@) && results.len() > 0 && !results[0] ==> r
                == HealOutcome::CompileFailed,
            !accepts_spec(results@) && !(results.len() > 0 && !results[0]) ==> r
                == HealOutcome::TestFailed,
    {
        if self.accepts(results) {
            HealOutcome::Success
        } else if results.len() > 0 && !results[0] {
            HealOutcome::CompileFailed
        } else {
            HealOutcome::TestFailed
        }
    }

    /// Whether the results accept the candidate fix.
    pub fn accepts(&self, results: &Vec<bool>) -> (r: bool)
        ensures
            r == accepts_spec(results@),
    {
        results.len() == 3 && results[0] && results[1] && results[2]
    }
}

} // verus!
