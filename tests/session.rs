use arqonship::heal::session::HealAction::{Apply, Finish, Generate, Restore, Verify};
use arqonship::heal::session::{HealAction, HealEvent, HealOutcome, HealSession};
use arqonship::heal::verify::{GateCheck, VerificationGate};
use std::path::PathBuf;

/// Drives a session against a generator and a verification that always answer the
/// same, recording the actions asked for.
fn drive(max: u32, fix_empty: bool, passes: bool) -> Vec<HealAction> {
    let mut s = HealSession::start(max);
    let mut actions = vec![s.action()];
    while !matches!(s.action(), HealAction::Finish(_)) {
        let e = match s.action() {
            HealAction::Generate => HealEvent::FixGenerated { empty: fix_empty },
            HealAction::Apply => HealEvent::FixApplied,
            HealAction::Verify => HealEvent::Verified { passed: passes },
            _ => HealEvent::BackupRestored,
        };
        s.step(e);
        actions.push(s.action());
    }
    actions
}

#[test]
fn two_failing_attempts_exhaust_the_budget() {
    let a = drive(2, false, false);
    assert_eq!(
        a,
        vec![Generate, Apply, Verify, Restore, Generate, Apply, Verify, Restore, Finish(HealOutcome::MaxAttemptsExceeded)]
    );
    let applies = a.iter().filter(|x| **x == Apply).count();
    let restores = a.iter().filter(|x| **x == Restore).count();
    assert_eq!((applies, restores), (2, 2));
}

#[test]
fn empty_fix_short_circuits() {
    assert_eq!(drive(3, true, true), vec![HealAction::Generate, HealAction::Finish(HealOutcome::NoFixGenerated)]);
}

#[test]
fn passing_fix_succeeds_first_time() {
    assert_eq!(drive(2, false, true), vec![Generate, Apply, Verify, Finish(HealOutcome::Success)]);
}

#[test]
fn zero_budget_finishes_at_once() {
    assert_eq!(drive(0, false, true), vec![HealAction::Finish(HealOutcome::MaxAttemptsExceeded)]);
}

#[test]
fn unexpected_event_changes_nothing() {
    let mut s = HealSession::start(2);
    s.step(HealEvent::Verified { passed: true });
    assert_eq!(s.action(), HealAction::Generate);
    assert_eq!(s.outcome(), None);
}

#[test]
fn outcome_names() {
    assert_eq!(HealOutcome::MaxAttemptsExceeded.name(), "MaxAttemptsExceeded");
    assert_eq!(HealOutcome::NoFixGenerated.name(), "NoFixGenerated");
    assert_eq!(HealOutcome::Success.name(), "Success");
}

#[test]
fn gate_runs_in_order_and_stops_at_failure() {
    let g = VerificationGate::new(PathBuf::from("."));
    assert_eq!(g.next_check(&vec![]), Some(GateCheck::Build));
    assert_eq!(g.next_check(&vec![true]), Some(GateCheck::Lint));
    assert_eq!(g.next_check(&vec![true, true]), Some(GateCheck::Test));
    assert_eq!(g.next_check(&vec![false]), None);
    assert_eq!(g.next_check(&vec![true, true, true]), None);
    assert!(g.accepts(&vec![true, true, true]));
    assert!(!g.accepts(&vec![true, false]));
}

#[test]
fn attempts_that_close() {
    let s = HealSession::start(2);
    assert!(s.closes_attempt(HealEvent::FixGenerated { empty: true }));
    assert!(!s.closes_attempt(HealEvent::FixGenerated { empty: false }));
    assert!(!s.closes_attempt(HealEvent::Verified { passed: true }));
}
