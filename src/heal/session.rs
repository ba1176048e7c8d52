//! The state machine of one healing session over one failure.
//!
//! The session decides; the caller performs. Each state names the action
//! that the caller must perform next (generate a fix, apply it, run the
//! verification checks, restore the backup, or stop with an outcome) and the
//! caller reports what happened as an event.
use vstd::prelude::*;

verus! {

/// Terminal result of one healing session.
#[derive(Debug, Clone, Copy, PartialEq, Eq, Structural)]
pub enum HealOutcome {
    Success,
    CompileFailed,
    TestFailed,
    NoFixGenerated,
    MaxAttemptsExceeded,
}

/// The name of an outcome, as the audit log records it.
pub open spec fn outcome_name(o: HealOutcome) -> Seq<char> {
    match o {
        HealOutcome::Success => "Success"@,
        HealOutcome::CompileFailed => "CompileFailed"@,
        HealOutcome::TestFailed => "TestFailed"@,
        HealOutcome::NoFixGenerated => "NoFixGenerated"@,
        HealOutcome::MaxAttemptsExceeded => "MaxAttemptsExceeded"@,
    }
}

impl HealOutcome {
    /// The outcome's name.
    pub fn name(&self) -> (r: String)
        ensures
            r@ == outcome_name(*self),
    {
        match self {
            HealOutcome::Success => "Success".to_owned(),
            HealOutcome::CompileFailed => "CompileFailed".to_owned(),
            HealOutcome::TestFailed => "TestFailed".to_owned(),
            HealOutcome::NoFixGenerated => "NoFixGenerated".to_owned(),
            HealOutcome::MaxAttemptsExceeded => "MaxAttemptsExceeded".to_owned(),
        }
    }
}

/// Where a session stands within its current attempt.
#[derive(Debug, Clone, Copy, PartialEq, Eq, Structural)]
pub enum Phase {
    Generating,
    Applying,
    Verifying,
    Restoring,
    Done(HealOutcome),
}

/// What the caller must do next.
#[derive(Debug, Clone, Copy, PartialEq, Eq, Structural)]
pub enum HealAction {
    /// Build the context, compose the prompt and ask the generator for a fix.
    Generate,
    /// Back the file up and overwrite it with the fix.
    Apply,
    /// Run the build, lint and test checks.
    Verify,
    /// Put the backup back over the file.
    Restore,
    /// Stop: the session is over.
    Finish(HealOutcome),
}

/// What the caller observed while performing an action.
#[derive(Debug, Clone, Copy, PartialEq, Eq, Structural)]
pub enum HealEvent {
    FixGenerated { empty: bool },
    FixApplied,
    Verified { passed: bool },
    BackupRestored,
}

#[derive(Debug, Clone, Copy, PartialEq, Eq, Structural)]
pub struct HealSession {
    pub max_attempts: u32,
    pub attempt: u32,
    pub phase: Phase,
}

/// The action that a session in state `s` asks for.
pub open spec fn pending_action(s: HealSession) -> HealAction {
    match s.phase {
        Phase::Generating => HealAction::Generate,
        Phase::Applying => HealAction::Apply,
        Phase::Verifying => HealAction::Verify,
        Phase::Restoring => HealAction::Restore,
        Phase::Done(o) => HealAction::Finish(o),
    }
}

/// The first state of a session with the given attempt budget.
pub open spec fn start_spec(max_attempts: u32) -> HealSession {
    if max_attempts == 0 {
        HealSession {
            max_attempts,
            attempt: 0,
            phase: Phase::Done(HealOutcome::MaxAttemptsExceeded),
        }
    } else {
        HealSession { max_attempts, attempt: 0, phase: Phase::Generating }
    }
}

/// The state after event `e`; an event that does not answer the pending
/// action leaves the state as it is.
pub open spec fn step_spec(s: HealSession, e: HealEvent) -> HealSession {
    match (s.phase, e) {
        (Phase::Generating, HealEvent::FixGenerated { empty }) => if empty {
            HealSession { phase: Phase::Done(HealOutcome::NoFixGenerated), ..s }
        } else {
            HealSession { phase: Phase::Applying, ..s }
        },
        (Phase::Applying, HealEvent::FixApplied) => HealSession { phase: Phase::Verifying, ..s },
        (Phase::Verifying, HealEvent::Verified { passed }) => if passed {
            HealSession { phase: Phase::Done(HealOutcome::Success), ..s }
        } else {
            HealSession { phase: Phase::Restoring, ..s }
        },
        (Phase::Restoring, HealEvent::BackupRestored) => if s.attempt + 1 < s.max_attempts {
            HealSession { attempt: (s.attempt + 1) as u32, phase: Phase::Generating, ..s }
        } else {
            HealSession { phase: Phase::Done(HealOutcome::MaxAttemptsExceeded), ..s }
        },
        _ => s,
    }
}

/// Event `e` ends an attempt in state `s`: an empty fix, or a verdict.
pub open spec fn attempt_closed(s: HealSession, e: HealEvent) -> bool {
    match (s.phase, e) {
        (Phase::Generating, HealEvent::FixGenerated { empty }) => empty,
        (Phase::Verifying, HealEvent::Verified { .. }) => true,
        _ => false,
    }
}

/// A session is well formed when an unfinished one is within its budget.
pub open spec fn session_wf(s: HealSession) -> bool {
    !(s.phase is Done) ==> s.attempt < s.max_attempts
}

/// The event that a caller reports when the generator always answers with an
/// empty fix or always with a fix (`fix_empty`), and the checks always answer
/// `passes`.
pub open spec fn uniform_event(s: HealSession, fix_empty: bool, passes: bool) -> HealEvent {
    match s.phase {
        Phase::Generating => HealEvent::FixGenerated { empty: fix_empty },
        Phase::Applying => HealEvent::FixApplied,
        Phase::Verifying => HealEvent::Verified { passed: passes },
        _ => HealEvent::BackupRestored,
    }
}

/// The actions that a session in state `s` asks for after `s`'s own, against
/// such a caller, for at most `fuel` steps.
pub open spec fn trace(s: HealSession, fix_empty: bool, passes: bool, fuel: nat) -> Seq<HealAction>
    decreases fuel,
{
    if fuel == 0 || s.phase is Done {
        seq![]
    } else {
        let t = step_spec(s, uniform_event(s, fix_empty, passes));
        seq![pending_action(t)] + trace(t, fix_empty, passes, (fuel - 1) as nat)
    }
}

/// Every action of a whole session against such a caller.
pub open spec fn session_actions(max_attempts: u32, fix_empty: bool, passes: bool) -> Seq<
    HealAction,
> {
    let s = start_spec(max_attempts);
    seq![pending_action(s)] + trace(s, fix_empty, passes, 4 * max_attempts as nat + 1)
}

/// The actions after the first `Generate` when `k` attempts remain and every
/// fix is applied, rejected and rolled back.
pub open spec fn failing_attempts(k: nat) -> Seq<HealAction>
    decreases k,
{
    if k <= 1 {
        seq![
            HealAction::Apply,
            HealAction::Verify,
            HealAction::Restore,
            HealAction::Finish(HealOutcome::MaxAttemptsExceeded),
        ]
    } else {
        seq![HealAction::Apply, HealAction::Verify, HealAction::Restore, HealAction::Generate]
            + failing_attempts((k - 1) as nat)
    }
}

/// Contents of the file under repair and of its backup.
pub struct FileModel {
    pub content: Seq<u8>,
    pub backup: Option<Seq<u8>>,
}

/// The file after the patch applier performs `actions`, each `Apply` writing
/// `fix`: applying backs the current content up first, restoring puts the
/// backup back and removes it, and restoring without a backup changes nothing.
pub open spec fn file_after(actions: Seq<HealAction>, f: FileModel, fix: Seq<u8>) -> FileModel
    decreases actions.len(),
{
    if actions.len() == 0 {
        f
    } else {
        let g = match actions[0] {
            HealAction::Apply => FileModel { content: fix, backup: Some(f.content) },
            HealAction::Restore => match f.backup {
                Some(b) => FileModel { content: b, backup: None },
                None => f,
            },
            _ => f,
        };
        file_after(actions.drop_first(), g, fix)
    }
}

/// How many times `a` occurs in `actions`.
pub open spec fn count_action(actions: Seq<HealAction>, a: HealAction) -> nat
    decreases actions.len(),
{
    if actions.len() == 0 {
        0
    } else {
        (if actions[0] == a {
            1nat
        } else {
            0nat
        }) + count_action(actions.drop_first(), a)
    }
}

impl HealSession {
    /// A new session with the given attempt budget.
    pub fn start(max_attempts: u32) -> (r: HealSession)
        ensures
            r == start_spec(max_attempts),
            session_wf(r),
    {
        if max_attempts == 0 {
            HealSession {
                max_attempts,
                attempt: 0,
                phase: Phase::Done(HealOutcome::MaxAttemptsExceeded),
            }
        } else {
            HealSession { max_attempts, attempt: 0, phase: Phase::Generating }
        }
    }

    /// The action that the caller must perform next.
    pub fn action(&self) -> (r: HealAction)
        ensures
            r == pending_action(*self),
    {
        match self.phase {
            Phase::Generating => HealAction::Generate,
            Phase::Applying => HealAction::Apply,
            Phase::Verifying => HealAction::Verify,
            Phase::Restoring => HealAction::Restore,
            Phase::Done(o) => HealAction::Finish(o),
        }
    }

    /// Records what happened while the pending action was performed.
    pub fn step(&mut self, e: HealEvent)
        requires
            session_wf(*old(self)),
        ensures
            *final(self) == step_spec(*old(self), e),
            session_wf(*final(self)),
    {
        match (self.phase, e) {
            (Phase::Generating, HealEvent::FixGenerated { empty }) => {
                if empty {
                    self.phase = Phase::Done(HealOutcome::NoFixGenerated);
                } else {
                    self.phase = Phase::Applying;
                }
            },
            (Phase::Applying, HealEvent::FixApplied) => {
                self.phase = Phase::Verifying;
            },
            (Phase::Verifying, HealEvent::Verified { passed }) => {
                if passed {
                    self.phase = Phase::Done(HealOutcome::Success);
                } else {
                    self.phase = Phase::Restoring;
                }
            },
            (Phase::Restoring, HealEvent::BackupRestored) => {
                if self.attempt + 1 < self.max_attempts {
                    self.attempt = self.attempt + 1;
                    self.phase = Phase::Generating;
                } else {
                    self.phase = Phase::Done(HealOutcome::MaxAttemptsExceeded);
                }
            },
            _ => {},
        }
    }

    /// Whether event `e` closes an attempt that the audit log must record:
    /// a generator that declined to fix, or a verdict on an applied fix.
    pub fn closes_attempt(&self, e: HealEvent) -> (r: bool)
        ensures
            r == attempt_closed(*self, e),
    {
        match (self.phase, e) {
            (Phase::Generating, HealEvent::FixGenerated { empty }) => empty,
            (Phase::Verifying, HealEvent::Verified { .. }) => true,
            _ => false,
        }
    }

    /// The outcome, once the session is over.
    pub fn outcome(&self) -> (r: Option<HealOutcome>)
        ensures
            match self.phase {
                Phase::Done(o) => r == Some(o),
                _ => r is None,
            },
    {
        match self.phase {
            Phase::Done(o) => Some(o),
            _ => None,
        }
    }
}

proof fn lemma_failing_from(s: HealSession, fuel: nat)
    requires
        s.phase == Phase::Generating,
        s.attempt < s.max_attempts,
        fuel >= 4 * (s.max_attempts - s.attempt) as nat,
    ensures
        trace(s, false, false, fuel) == failing_attempts((s.max_attempts - s.attempt) as nat),
    decreases s.max_attempts - s.attempt,
{
    let s1 = step_spec(s, uniform_event(s, false, false));
    let s2 = step_spec(s1, uniform_event(s1, false, false));
    let s3 = step_spec(s2, uniform_event(s2, false, false));
    let s4 = step_spec(s3, uniform_event(s3, false, false));
    assert(trace(s, false, false, fuel) == seq![HealAction::Apply] + trace(s1, false, false, (fuel - 1) as nat));
    assert(trace(s1, false, false, (fuel - 1) as nat) == seq![HealAction::Verify] + trace(s2, false, false, (fuel - 2) as nat));
    assert(trace(s2, false, false, (fuel - 2) as nat) == seq![HealAction::Restore] + trace(s3, false, false, (fuel - 3) as nat));
    if s.attempt + 1 < s.max_attempts {
        assert(trace(s3, false, false, (fuel - 3) as nat) == seq![HealAction::Generate] + trace(s4, false, false, (fuel - 4) as nat));
        lemma_failing_from(s4, (fuel - 4) as nat);
        assert(trace(s, false, false, fuel) =~= failing_attempts((s.max_attempts - s.attempt) as nat));
    } else {
        assert(trace(s3, false, false, (fuel - 3) as nat) == seq![HealAction::Finish(HealOutcome::MaxAttemptsExceeded)] + trace(s4, false, false, (fuel - 4) as nat));
        assert(trace(s4, false, false, (fuel - 4) as nat) == Seq::<HealAction>::empty());
        assert(trace(s, false, false, fuel) =~= failing_attempts((s.max_attempts - s.attempt) as nat));
    }
}

proof fn lemma_count_concat(x: Seq<HealAction>, y: Seq<HealAction>, a: HealAction)
    ensures
        count_action(x + y, a) == count_action(x, a) + count_action(y, a),
    decreases x.len(),
{
    if x.len() > 0 {
        assert((x + y).drop_first() =~= x.drop_first() + y);
        lemma_count_concat(x.drop_first(), y, a);
    } else {
        assert(x + y =~= y);
    }
}

proof fn lemma_file_concat(x: Seq<HealAction>, y: Seq<HealAction>, f: FileModel, fix: Seq<u8>)
    ensures
        file_after(x + y, f, fix) == file_after(y, file_after(x, f, fix), fix),
    decreases x.len(),
{
    if x.len() > 0 {
        assert((x + y).drop_first() =~= x.drop_first() + y);
        assert((x + y)[0] == x[0]);
        let g = match x[0] {
            HealAction::Apply => FileModel { content: fix, backup: Some(f.content) },
            HealAction::Restore => match f.backup {
                Some(b) => FileModel { content: b, backup: None },
                None => f,
            },
            _ => f,
        };
        lemma_file_concat(x.drop_first(), y, g, fix);
    } else {
        assert(x + y =~= y);
    }
}

proof fn lemma_cycle_file(cycle: Seq<HealAction>, last: HealAction, c: Seq<u8>, fix: Seq<u8>)
    requires
        cycle == seq![HealAction::Apply, HealAction::Verify, HealAction::Restore, last],
        !(last is Apply) && !(last is Restore),
    ensures
        file_after(cycle, FileModel { content: c, backup: None }, fix) == (FileModel {
            content: c,
            backup: None,
        }),
{
    let f0 = FileModel { content: c, backup: None };
    let f1 = FileModel { content: fix, backup: Some(c) };
    assert(cycle.drop_first() =~= seq![HealAction::Verify, HealAction::Restore, last]);
    assert(cycle.drop_first().drop_first() =~= seq![HealAction::Restore, last]);
    assert(cycle.drop_first().drop_first().drop_first() =~= seq![last]);
    assert(seq![last].drop_first() =~= Seq::<HealAction>::empty());
    reveal_with_fuel(file_after, 5);
    assert(file_after(Seq::<HealAction>::empty(), f0, fix) == f0);
    assert(file_after(seq![last], f0, fix) == f0);
    assert(file_after(cycle.drop_first().drop_first(), f1, fix) == f0);
}

proof fn lemma_failing_facts(k: nat, c: Seq<u8>, fix: Seq<u8>)
    requires
        k >= 1,
    ensures
        count_action(failing_attempts(k), HealAction::Apply) == k,
        count_action(failing_attempts(k), HealAction::Verify) == k,
        count_action(failing_attempts(k), HealAction::Restore) == k,
        file_after(failing_attempts(k), FileModel { content: c, backup: None }, fix) == (
        FileModel { content: c, backup: None }),
        failing_attempts(k).len() > 0,
        failing_attempts(k).last() == HealAction::Finish(HealOutcome::MaxAttemptsExceeded),
    decreases k,
{
    let f0 = FileModel { content: c, backup: None };
    if k <= 1 {
        let cyc = failing_attempts(k);
        lemma_cycle_file(cyc, HealAction::Finish(HealOutcome::MaxAttemptsExceeded), c, fix);
        reveal_with_fuel(count_action, 5);
        assert(cyc.drop_first() =~= seq![HealAction::Verify, HealAction::Restore, HealAction::Finish(HealOutcome::MaxAttemptsExceeded)]);
        assert(cyc.drop_first().drop_first() =~= seq![HealAction::Restore, HealAction::Finish(HealOutcome::MaxAttemptsExceeded)]);
        assert(cyc.drop_first().drop_first().drop_first() =~= seq![HealAction::Finish(HealOutcome::MaxAttemptsExceeded)]);
        assert(cyc.drop_first().drop_first().drop_first().drop_first() =~= Seq::<HealAction>::empty());
    } else {
        let cyc = seq![HealAction::Apply, HealAction::Verify, HealAction::Restore, HealAction::Generate];
        let rest = failing_attempts((k - 1) as nat);
        lemma_failing_facts((k - 1) as nat, c, fix);
        lemma_cycle_file(cyc, HealAction::Generate, c, fix);
        lemma_file_concat(cyc, rest, f0, fix);
        reveal_with_fuel(count_action, 5);
        assert(cyc.drop_first() =~= seq![HealAction::Verify, HealAction::Restore, HealAction::Generate]);
        assert(cyc.drop_first().drop_first() =~= seq![HealAction::Restore, HealAction::Generate]);
        assert(cyc.drop_first().drop_first().drop_first() =~= seq![HealAction::Generate]);
        assert(cyc.drop_first().drop_first().drop_first().drop_first() =~= Seq::<HealAction>::empty());
        lemma_count_concat(cyc, rest, HealAction::Apply);
        lemma_count_concat(cyc, rest, HealAction::Verify);
        lemma_count_concat(cyc, rest, HealAction::Restore);
        assert((cyc + rest).last() == rest.last());
    }
}

/// A session whose every fix is applied and rejected by the checks makes
/// exactly `max_attempts` apply, verify and roll-back cycles, ends with
/// `MaxAttemptsExceeded`, and leaves the file as it found it.
pub proof fn lemma_budget_exhausted(max_attempts: u32, initial: Seq<u8>, fix: Seq<u8>)
    requires
        max_attempts >= 1,
    ensures
        session_actions(max_attempts, false, false) == seq![HealAction::Generate]
            + failing_attempts(max_attempts as nat),
        session_actions(max_attempts, false, false).last() == HealAction::Finish(
            HealOutcome::MaxAttemptsExceeded,
        ),
        count_action(session_actions(max_attempts, false, false), HealAction::Apply)
            == max_attempts,
        count_action(session_actions(max_attempts, false, false), HealAction::Verify)
            == max_attempts,
        count_action(session_actions(max_attempts, false, false), HealAction::Restore)
            == max_attempts,
        file_after(
            session_actions(max_attempts, false, false),
            FileModel { content: initial, backup: None },
            fix,
        ).content == initial,
{
    let s = start_spec(max_attempts);
    let f0 = FileModel { content: initial, backup: None };
    lemma_failing_from(s, 4 * max_attempts as nat + 1);
    let rest = failing_attempts(max_attempts as nat);
    lemma_failing_facts(max_attempts as nat, initial, fix);
    let head = seq![HealAction::Generate];
    assert(head.drop_first() =~= Seq::<HealAction>::empty());
    lemma_count_concat(head, rest, HealAction::Apply);
    lemma_count_concat(head, rest, HealAction::Verify);
    lemma_count_concat(head, rest, HealAction::Restore);
    lemma_file_concat(head, rest, f0, fix);
    reveal_with_fuel(file_after, 2);
    reveal_with_fuel(count_action, 2);
    assert(file_after(head, f0, fix) == f0);
    assert(count_action(head, HealAction::Apply) == 0);
    assert(count_action(head, HealAction::Verify) == 0);
    assert(count_action(head, HealAction::Restore) == 0);
    assert(session_actions(max_attempts, false, false) == head + rest);
}

/// A generator that answers with an empty fix ends the session at once with
/// `NoFixGenerated`: the file is never written and the checks never run.
pub proof fn lemma_empty_fix_short_circuit(max_attempts: u32, passes: bool)
    requires
        max_attempts >= 1,
    ensures
        session_actions(max_attempts, true, passes) == seq![
            HealAction::Generate,
            HealAction::Finish(HealOutcome::NoFixGenerated),
        ],
{
    let s = start_spec(max_attempts);
    let t = step_spec(s, uniform_event(s, true, passes));
    assert(trace(t, true, passes, 4 * max_attempts as nat) == Seq::<HealAction>::empty());
    assert(session_actions(max_attempts, true, passes) =~= seq![
        HealAction::Generate,
        HealAction::Finish(HealOutcome::NoFixGenerated),
    ]);
}

} // verus!
