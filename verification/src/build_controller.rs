//! The build controller: one incremental build and, if that fails, a single
//! clean reconfigure followed by one rebuild.
//!
//! An incremental build can fail only because source files were added or
//! removed. Selecting the target again wipes the build state, so one
//! reconfigure and one rebuild settle that case. Anything that still fails
//! afterwards is reported, never retried: no phase leads back to the first
//! build.

use crate::tool::{ToolAction, ToolEvent};
use vstd::prelude::*;

verus! {

/// Why a build run was given up.
#[derive(Clone, Copy, Debug, PartialEq, Eq, Structural)]
pub enum BuildFailure {
    /// The tool could not be started.
    Launch,
    /// The reconfigure step ran and failed.
    Reconfigure,
    /// The build after the reconfigure step ran and failed.
    Rebuild,
}

/// Where a build run stands.
#[derive(Clone, Copy, Debug, PartialEq, Eq, Structural)]
pub enum BuildPhase {
    /// The incremental build is to be run.
    InitialBuild,
    /// The incremental build failed; the target is to be selected again.
    Reconfiguring,
    /// The project was reconfigured; the build is to be run once more.
    Rebuilding,
    /// A build succeeded.
    Succeeded,
    /// The run was given up.
    Failed(BuildFailure),
}

impl BuildPhase {
    /// The action the controller waits for in this phase, if any.
    pub open spec fn wanted(self) -> Option<ToolAction> {
        match self {
            BuildPhase::InitialBuild => Some(ToolAction::Build),
            BuildPhase::Reconfiguring => Some(ToolAction::SetTarget),
            BuildPhase::Rebuilding => Some(ToolAction::Build),
            BuildPhase::Succeeded => None,
            BuildPhase::Failed(_) => None,
        }
    }

    /// The phase that follows this one once the driver reports `event`.
    /// A finished run stays as it is.
    pub open spec fn after(self, event: ToolEvent) -> BuildPhase {
        match self {
            BuildPhase::InitialBuild => if event.succeeded() {
                BuildPhase::Succeeded
            } else if event.failed() {
                BuildPhase::Reconfiguring
            } else {
                BuildPhase::Failed(BuildFailure::Launch)
            },
            BuildPhase::Reconfiguring => if event.succeeded() {
                BuildPhase::Rebuilding
            } else if event.failed() {
                BuildPhase::Failed(BuildFailure::Reconfigure)
            } else {
                BuildPhase::Failed(BuildFailure::Launch)
            },
            BuildPhase::Rebuilding => if event.succeeded() {
                BuildPhase::Succeeded
            } else if event.failed() {
                BuildPhase::Failed(BuildFailure::Rebuild)
            } else {
                BuildPhase::Failed(BuildFailure::Launch)
            },
            BuildPhase::Succeeded => self,
            BuildPhase::Failed(_) => self,
        }
    }

    /// The result of the run, once it has one.
    pub open spec fn verdict(self) -> Option<Result<(), BuildFailure>> {
        match self {
            BuildPhase::Succeeded => Some(Ok(())),
            BuildPhase::Failed(failure) => Some(Err(failure)),
            _ => None,
        }
    }

    /// A run that has not asked for anything yet.
    pub fn start() -> (phase: BuildPhase)
        ensures
            phase == BuildPhase::InitialBuild,
    {
        BuildPhase::InitialBuild
    }

    /// Returns the action the driver has to perform now, or `None` once the
    /// run is over.
    pub fn pending(self) -> (action: Option<ToolAction>)
        ensures
            action == self.wanted(),
    {
        match self {
            BuildPhase::InitialBuild => Some(ToolAction::Build),
            BuildPhase::Reconfiguring => Some(ToolAction::SetTarget),
            BuildPhase::Rebuilding => Some(ToolAction::Build),
            BuildPhase::Succeeded => None,
            BuildPhase::Failed(_) => None,
        }
    }

    /// Takes the report on the pending action and returns the next phase.
    /// Once the run is over, reports change nothing.
    pub fn step(self, event: ToolEvent) -> (next: BuildPhase)
        ensures
            next == self.after(event),
    {
        match (self, event) {
            (BuildPhase::Succeeded, _) => self,
            (BuildPhase::Failed(_), _) => self,
            (_, ToolEvent::LaunchFailed) => BuildPhase::Failed(BuildFailure::Launch),
            (BuildPhase::InitialBuild, ToolEvent::Exited(outcome)) => if outcome.success {
                BuildPhase::Succeeded
            } else {
                BuildPhase::Reconfiguring
            },
            (BuildPhase::Reconfiguring, ToolEvent::Exited(outcome)) => if outcome.success {
                BuildPhase::Rebuilding
            } else {
                BuildPhase::Failed(BuildFailure::Reconfigure)
            },
            (BuildPhase::Rebuilding, ToolEvent::Exited(outcome)) => if outcome.success {
                BuildPhase::Succeeded
            } else {
                BuildPhase::Failed(BuildFailure::Rebuild)
            },
        }
    }

    /// Returns the result of the run: `None` while an action is pending.
    pub fn outcome(self) -> (result: Option<Result<(), BuildFailure>>)
        ensures
            result == self.verdict(),
    {
        match self {
            BuildPhase::Succeeded => Some(Ok(())),
            BuildPhase::Failed(failure) => Some(Err(failure)),
            _ => None,
        }
    }
}

/// The phase a run is in once the driver has answered with `events`, in
/// order, starting from `phase`.
pub open spec fn run_from(phase: BuildPhase, events: Seq<ToolEvent>) -> BuildPhase
    decreases events.len(),
{
    if events.len() == 0 {
        phase
    } else {
        run_from(phase.after(events.first()), events.drop_first())
    }
}

/// The actions asked of the driver, in order, while it answers with `events`,
/// starting from `phase`. The last one may still be unanswered.
pub open spec fn asked_from(phase: BuildPhase, events: Seq<ToolEvent>) -> Seq<ToolAction>
    decreases events.len(),
{
    match phase.wanted() {
        None => Seq::empty(),
        Some(action) => if events.len() == 0 {
            seq![action]
        } else {
            seq![action] + asked_from(phase.after(events.first()), events.drop_first())
        },
    }
}

/// The phase of a fresh run after `events`.
pub open spec fn run(events: Seq<ToolEvent>) -> BuildPhase {
    run_from(BuildPhase::InitialBuild, events)
}

/// The actions a fresh run asks for while the driver answers with `events`.
pub open spec fn asked(events: Seq<ToolEvent>) -> Seq<ToolAction> {
    asked_from(BuildPhase::InitialBuild, events)
}

/// A run that is over stays over and asks for nothing more, whatever is
/// reported to it.
pub proof fn lemma_finished_run_is_inert(phase: BuildPhase, events: Seq<ToolEvent>)
    requires
        phase.wanted() is None,
    ensures
        run_from(phase, events) == phase,
        asked_from(phase, events) == Seq::<ToolAction>::empty(),
    decreases events.len(),
{
    if events.len() > 0 {
        lemma_finished_run_is_inert(phase, events.drop_first());
    }
}

/// Nothing leads back to the first build: once it was tried, it is never
/// tried again.
pub proof fn law_first_build_is_tried_once(events: Seq<ToolEvent>)
    ensures
        run(events) == BuildPhase::InitialBuild <==> events.len() == 0,
    decreases events.len(),
{
    if events.len() > 0 {
        lemma_never_back_at_first_build(
            BuildPhase::InitialBuild.after(events.first()),
            events.drop_first(),
        );
    }
}

/// A run that has left the first build does not come back to it.
proof fn lemma_never_back_at_first_build(phase: BuildPhase, events: Seq<ToolEvent>)
    requires
        phase != BuildPhase::InitialBuild,
    ensures
        run_from(phase, events) != BuildPhase::InitialBuild,
    decreases events.len(),
{
    if events.len() > 0 {
        lemma_never_back_at_first_build(phase.after(events.first()), events.drop_first());
    }
}

/// When the first build succeeds, the run has succeeded and the build was the
/// only action asked for: no reconfigure, no rebuild.
pub proof fn law_first_success_skips_fallback(events: Seq<ToolEvent>)
    requires
        events.len() >= 1,
        events[0].succeeded(),
    ensures
        run(events) == BuildPhase::Succeeded,
        asked(events) == seq![ToolAction::Build],
{
    lemma_finished_run_is_inert(BuildPhase::Succeeded, events.drop_first());
    assert(asked(events) =~= seq![ToolAction::Build]);
}

/// When the first build fails and both the reconfigure and the rebuild
/// succeed, the run has succeeded, and exactly one reconfigure and one rebuild
/// were asked for after the first build.
pub proof fn law_fallback_runs_once(events: Seq<ToolEvent>)
    requires
        events.len() >= 3,
        events[0].failed(),
        events[1].succeeded(),
        events[2].succeeded(),
    ensures
        run(events) == BuildPhase::Succeeded,
        asked(events) == seq![ToolAction::Build, ToolAction::SetTarget, ToolAction::Build],
{
    let rest1 = events.drop_first();
    let rest2 = rest1.drop_first();
    let rest3 = rest2.drop_first();
    assert(rest1.first() == events[1]);
    assert(rest2.first() == events[2]);
    lemma_finished_run_is_inert(BuildPhase::Succeeded, rest3);
    assert(run_from(BuildPhase::Rebuilding, rest2) == BuildPhase::Succeeded);
    assert(run_from(BuildPhase::Reconfiguring, rest1) == BuildPhase::Succeeded);
    assert(asked_from(BuildPhase::Rebuilding, rest2) =~= seq![ToolAction::Build]);
    assert(asked_from(BuildPhase::Reconfiguring, rest1) =~= seq![
        ToolAction::SetTarget,
        ToolAction::Build,
    ]);
    assert(asked(events) =~= seq![ToolAction::Build, ToolAction::SetTarget, ToolAction::Build]);
}

/// When the reconfigure step fails, the run is given up at once: no rebuild is
/// asked for, and the failure reported is not that of a rebuild.
pub proof fn law_failed_reconfigure_halts(events: Seq<ToolEvent>)
    requires
        events.len() >= 2,
        events[0].failed(),
        events[1].failed(),
    ensures
        run(events) == BuildPhase::Failed(BuildFailure::Reconfigure),
        run(events) != BuildPhase::Failed(BuildFailure::Rebuild),
        asked(events) == seq![ToolAction::Build, ToolAction::SetTarget],
{
    let rest1 = events.drop_first();
    let rest2 = rest1.drop_first();
    assert(rest1.first() == events[1]);
    lemma_finished_run_is_inert(BuildPhase::Failed(BuildFailure::Reconfigure), rest2);
    assert(run_from(BuildPhase::Reconfiguring, rest1) == BuildPhase::Failed(
        BuildFailure::Reconfigure,
    ));
    assert(asked_from(BuildPhase::Reconfiguring, rest1) =~= seq![ToolAction::SetTarget]);
    assert(asked(events) =~= seq![ToolAction::Build, ToolAction::SetTarget]);
}

/// Whatever the driver reports, a run asks for at most a build, a
/// reconfigure and a second build, in this order. Nothing is tried twice
/// beyond that.
pub proof fn law_at_most_one_fallback(events: Seq<ToolEvent>)
    ensures
        asked(events).is_prefix_of(
            seq![ToolAction::Build, ToolAction::SetTarget, ToolAction::Build],
        ),
{
    let full = seq![ToolAction::Build, ToolAction::SetTarget, ToolAction::Build];
    if events.len() == 0 {
        assert(asked(events) =~= full.subrange(0, 1));
    } else {
        let rest1 = events.drop_first();
        let second = BuildPhase::InitialBuild.after(events.first());
        if second != BuildPhase::Reconfiguring {
            lemma_finished_run_is_inert(second, rest1);
            assert(asked(events) =~= full.subrange(0, 1));
        } else if rest1.len() == 0 {
            assert(asked_from(second, rest1) =~= seq![ToolAction::SetTarget]);
            assert(asked(events) =~= full.subrange(0, 2));
        } else {
            let rest2 = rest1.drop_first();
            let third = second.after(rest1.first());
            if third != BuildPhase::Rebuilding {
                lemma_finished_run_is_inert(third, rest2);
                assert(asked_from(second, rest1) =~= seq![ToolAction::SetTarget]);
                assert(asked(events) =~= full.subrange(0, 2));
            } else {
                if rest2.len() > 0 {
                    lemma_finished_run_is_inert(third.after(rest2.first()), rest2.drop_first());
                }
                assert(asked_from(third, rest2) =~= seq![ToolAction::Build]);
                assert(asked_from(second, rest1) =~= seq![
                    ToolAction::SetTarget,
                    ToolAction::Build,
                ]);
                assert(asked(events) =~= full.subrange(0, 3));
            }
        }
    }
}

/// How a run ends is decided by the first reports alone. It succeeds exactly
/// when the first build succeeds, or fails and both fallback steps succeed.
/// It fails at the reconfigure step exactly when the first build and the
/// reconfigure both fail, and at the rebuild exactly when the rebuild is the
/// first step to fail after a failed first build.
pub proof fn law_run_outcome(events: Seq<ToolEvent>)
    ensures
        run(events) == BuildPhase::Succeeded <==> (events.len() >= 1 && events[0].succeeded())
            || (events.len() >= 3 && events[0].failed() && events[1].succeeded()
            && events[2].succeeded()),
        run(events) == BuildPhase::Failed(BuildFailure::Reconfigure) <==> events.len() >= 2
            && events[0].failed() && events[1].failed(),
        run(events) == BuildPhase::Failed(BuildFailure::Rebuild) <==> events.len() >= 3
            && events[0].failed() && events[1].succeeded() && events[2].failed(),
{
    if events.len() >= 1 {
        let rest1 = events.drop_first();
        let second = BuildPhase::InitialBuild.after(events[0]);
        if second.wanted() is None {
            lemma_finished_run_is_inert(second, rest1);
        } else if rest1.len() >= 1 {
            assert(rest1.first() == events[1]);
            let rest2 = rest1.drop_first();
            let third = second.after(events[1]);
            if third.wanted() is None {
                lemma_finished_run_is_inert(third, rest2);
            } else if rest2.len() >= 1 {
                assert(rest2.first() == events[2]);
                lemma_finished_run_is_inert(third.after(events[2]), rest2.drop_first());
            }
        }
    }
}

} // verus!
