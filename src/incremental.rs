use vstd::prelude::*;

verus! {

/// Where a two-pass incremental compile stands. The scoped directory exists
/// from before the first pass until the cleanup step has run.
#[derive(Clone, Copy, Debug, PartialEq, Eq, Structural)]
pub enum Phase {
    /// Waiting for the first pass to end.
    FirstPass,
    /// Waiting for the second pass to end.
    SecondPass,
    /// Waiting for the directory removal; remembers whether the second pass
    /// could be launched.
    Cleanup { second_launched: bool },
    /// The protocol is over.
    Finished { verdict: Verdict },
}

/// What the runner is told to do next.
#[derive(Clone, Copy, Debug, PartialEq, Eq, Structural)]
pub enum Action {
    /// Run pass `pass` (0 or 1) against the probe.
    RunPass { pass: u8 },
    /// Delete the scoped directory.
    RemoveDir,
    /// Hand the verdict to the caller; nothing is left to do.
    Report { verdict: Verdict },
}

/// The outcome of the whole protocol.
#[derive(Clone, Copy, Debug, PartialEq, Eq, Structural)]
pub enum Verdict {
    /// The second pass ran and the directory is gone: its output is the
    /// result for the probe.
    Completed,
    /// The second pass could not be launched; the directory is gone.
    LaunchFailed,
    /// The second pass ran but the directory could not be deleted.
    CleanupFailed,
    /// The second pass could not be launched and the directory could not be
    /// deleted.
    LaunchAndCleanupFailed,
}

/// The verdict once the second pass and the removal have ended.
pub open spec fn verdict_of(second_launched: bool, removed: bool) -> Verdict {
    if second_launched {
        if removed { Verdict::Completed } else { Verdict::CleanupFailed }
    } else {
        if removed { Verdict::LaunchFailed } else { Verdict::LaunchAndCleanupFailed }
    }
}

/// The state the protocol begins in and its first action.
pub open spec fn start_spec() -> (Phase, Action) {
    (Phase::FirstPass, Action::RunPass { pass: 0 })
}

/// One step: `ok` is whether the awaited step succeeded (the pass was
/// launched, or the directory was removed). A pass that exits nonzero has
/// still been launched; no step is retried.
pub open spec fn step_spec(phase: Phase, ok: bool) -> (Phase, Action) {
    match phase {
        Phase::FirstPass => (Phase::SecondPass, Action::RunPass { pass: 1 }),
        Phase::SecondPass => (Phase::Cleanup { second_launched: ok }, Action::RemoveDir),
        Phase::Cleanup { second_launched } => {
            let v = verdict_of(second_launched, ok);
            (Phase::Finished { verdict: v }, Action::Report { verdict: v })
        },
        Phase::Finished { verdict } => (phase, Action::Report { verdict }),
    }
}

/// Begins the protocol with the scoped directory in place.
pub fn start() -> (r: (Phase, Action))
    ensures
        r == start_spec(),
{
    (Phase::FirstPass, Action::RunPass { pass: 0 })
}

/// Decides the next action from the current phase and whether the step just
/// awaited succeeded.
pub fn step(phase: Phase, ok: bool) -> (r: (Phase, Action))
    ensures
        r == step_spec(phase, ok),
{
    match phase {
        Phase::FirstPass => (Phase::SecondPass, Action::RunPass { pass: 1 }),
        Phase::SecondPass => (Phase::Cleanup { second_launched: ok }, Action::RemoveDir),
        Phase::Cleanup { second_launched } => {
            let v = if second_launched {
                if ok { Verdict::Completed } else { Verdict::CleanupFailed }
            } else {
                if ok { Verdict::LaunchFailed } else { Verdict::LaunchAndCleanupFailed }
            };
            (Phase::Finished { verdict: v }, Action::Report { verdict: v })
        },
        Phase::Finished { verdict } => (phase, Action::Report { verdict }),
    }
}

/// The actions the protocol emits over the step outcomes `oks`, the first
/// action included.
pub open spec fn actions_over(oks: Seq<bool>) -> Seq<Action>
    decreases oks.len(),
{
    if oks.len() == 0 {
        seq![start_spec().1]
    } else {
        actions_over(oks.drop_last()).push(step_spec(phase_after(oks.drop_last()), oks.last()).1)
    }
}

/// The phase after the step outcomes `oks`.
pub open spec fn phase_after(oks: Seq<bool>) -> Phase
    decreases oks.len(),
{
    if oks.len() == 0 {
        start_spec().0
    } else {
        step_spec(phase_after(oks.drop_last()), oks.last()).0
    }
}

/// One action for the start and one per outcome.
pub proof fn lemma_actions_len(oks: Seq<bool>)
    ensures
        actions_over(oks).len() == oks.len() + 1,
    decreases oks.len(),
{
    if oks.len() > 0 {
        lemma_actions_len(oks.drop_last());
    }
}

/// Whatever each pass does (exit nonzero, or fail to launch) and whatever
/// the removal does, the protocol runs pass 0, then pass 1, then deletes
/// the directory, then reports; it never runs a pass or deletes again.
pub proof fn lemma_two_passes_then_cleanup(oks: Seq<bool>)
    requires
        oks.len() >= 3,
    ensures
        actions_over(oks)[0] == (Action::RunPass { pass: 0 }),
        actions_over(oks)[1] == (Action::RunPass { pass: 1 }),
        actions_over(oks)[2] == Action::RemoveDir,
        actions_over(oks)[3] == (Action::Report { verdict: verdict_of(oks[1], oks[2]) }),
        forall|i: int| 3 <= i < actions_over(oks).len() ==> #[trigger] actions_over(oks)[i] == (
        Action::Report { verdict: verdict_of(oks[1], oks[2]) }),
    decreases oks.len(),
{
    lemma_actions_len(oks);
    let v = verdict_of(oks[1], oks[2]);
    if oks.len() == 3 {
        let o0 = oks.subrange(0, 0);
        let o1 = oks.subrange(0, 1);
        let o2 = oks.subrange(0, 2);
        assert(oks.drop_last() =~= o2);
        assert(o2.drop_last() =~= o1);
        assert(o1.drop_last() =~= o0);
        assert(phase_after(o0) == Phase::FirstPass);
        assert(actions_over(o0) == seq![Action::RunPass { pass: 0 }]);
        assert(phase_after(o1) == Phase::SecondPass);
        assert(actions_over(o1) == seq![Action::RunPass { pass: 0 }].push(
            Action::RunPass { pass: 1 },
        ));
        assert(phase_after(o2) == (Phase::Cleanup { second_launched: oks[1] }));
        assert(actions_over(o2) == actions_over(o1).push(Action::RemoveDir));
        assert(actions_over(oks) == actions_over(o2).push(Action::Report { verdict: v }));
    } else {
        let prev = oks.drop_last();
        lemma_two_passes_then_cleanup(prev);
        lemma_actions_len(oks);
        assert(prev[1] == oks[1] && prev[2] == oks[2]);
        lemma_finished_after_three(prev);
    }
}

/// After three or more outcomes the protocol has finished with the verdict
/// fixed by the second pass and the removal.
pub proof fn lemma_finished_after_three(oks: Seq<bool>)
    requires
        oks.len() >= 3,
    ensures
        phase_after(oks) == (Phase::Finished { verdict: verdict_of(oks[1], oks[2]) }),
    decreases oks.len(),
{
    let prev = oks.drop_last();
    if oks.len() == 3 {
        let o1 = oks.subrange(0, 1);
        let o2 = oks.subrange(0, 2);
        let o0 = oks.subrange(0, 0);
        assert(prev =~= o2);
        assert(o2.drop_last() =~= o1);
        assert(o1.drop_last() =~= o0);
        assert(phase_after(o0) == Phase::FirstPass);
        assert(phase_after(o1) == Phase::SecondPass);
        assert(phase_after(o2) == (Phase::Cleanup { second_launched: oks[1] }));
    } else {
        lemma_finished_after_three(prev);
        assert(prev[1] == oks[1] && prev[2] == oks[2]);
    }
}

} // verus!
