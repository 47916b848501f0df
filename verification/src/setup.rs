//! The startup hook around placement.
//!
//! On a desktop target the hook runs placement and, upon its success, emits
//! the zero-payload `window-ready` notification to the UI layer; a placement
//! error is fatal to startup, and a failing emission aborts outright. On a
//! mobile target the hook does nothing: the platform shell owns window
//! creation there. The hook's decisions form a second, smaller state machine,
//! driven by the host exactly as the placement controller is.

use vstd::prelude::*;
use crate::config::Platform;

verus! {

/// What the setup hook asks the host to do next.
///
/// `RunPlacement` means: drive a fresh
/// [`crate::placement::PlacementController`] to its end and report
/// [`SetupEvent::PlacementSucceeded`] exactly when it finished with
/// [`crate::placement::Action::Finish`]. `EmitReady` means: broadcast the
/// zero-payload `window-ready` notification.
#[derive(Clone, Copy, PartialEq, Eq, Structural, Debug)]
pub enum SetupAction {
    RunPlacement,
    EmitReady,
    FinishStartup,
    FailStartup,
    AbortStartup,
}

/// The host's report on the setup hook's last request.
#[derive(Clone, Copy, PartialEq, Eq, Structural, Debug)]
pub enum SetupEvent {
    Begin,
    PlacementSucceeded,
    PlacementFailed,
    EmitSucceeded,
    EmitFailed,
}

/// Where the setup hook stands. The terminal phases accept no further event.
#[derive(Clone, Copy, PartialEq, Eq, Structural, Debug)]
pub enum SetupPhase {
    Boot,
    AwaitingPlacement,
    AwaitingEmit,
    Done,
    Failed,
    Aborted,
}

/// Which events answer the request made in phase `p`.
pub open spec fn setup_accepts(p: SetupPhase, e: SetupEvent) -> bool {
    match p {
        SetupPhase::Boot => e is Begin,
        SetupPhase::AwaitingPlacement => e is PlacementSucceeded || e is PlacementFailed,
        SetupPhase::AwaitingEmit => e is EmitSucceeded || e is EmitFailed,
        SetupPhase::Done => false,
        SetupPhase::Failed => false,
        SetupPhase::Aborted => false,
    }
}

/// The setup hook's transition table. Placement runs on desktop platforms
/// only; the readiness notification is requested only once placement has
/// succeeded.
pub open spec fn spec_setup_step(platform: Platform, p: SetupPhase, e: SetupEvent) -> (
    SetupPhase,
    SetupAction,
) {
    match (p, e) {
        (SetupPhase::Boot, SetupEvent::Begin) => if platform.spec_is_desktop() {
            (SetupPhase::AwaitingPlacement, SetupAction::RunPlacement)
        } else {
            (SetupPhase::Done, SetupAction::FinishStartup)
        },
        (SetupPhase::AwaitingPlacement, SetupEvent::PlacementSucceeded) => (
            SetupPhase::AwaitingEmit,
            SetupAction::EmitReady,
        ),
        (SetupPhase::AwaitingPlacement, SetupEvent::PlacementFailed) => (
            SetupPhase::Failed,
            SetupAction::FailStartup,
        ),
        (SetupPhase::AwaitingEmit, SetupEvent::EmitSucceeded) => (
            SetupPhase::Done,
            SetupAction::FinishStartup,
        ),
        (SetupPhase::AwaitingEmit, SetupEvent::EmitFailed) => (
            SetupPhase::Aborted,
            SetupAction::AbortStartup,
        ),
        _ => (p, SetupAction::FailStartup),
    }
}

/// The decision side of the setup hook, driven by the host like the
/// placement controller: perform each returned action, feed its outcome back,
/// begin with [`SetupEvent::Begin`].
pub struct SetupController {
    pub platform: Platform,
    pub phase: SetupPhase,
}

impl SetupController {
    /// A setup controller for the given platform, ready to boot.
    pub fn new(platform: Platform) -> (c: SetupController)
        ensures
            c.platform == platform,
            c.phase == SetupPhase::Boot,
    {
        SetupController { platform, phase: SetupPhase::Boot }
    }

    /// Consume the host's report on the previous request and return the next
    /// action, exactly as [`spec_setup_step`] lays it down.
    pub fn step(&mut self, event: SetupEvent) -> (a: SetupAction)
        requires
            setup_accepts(old(self).phase, event),
        ensures
            final(self).platform == old(self).platform,
            final(self).phase == spec_setup_step(old(self).platform, old(self).phase, event).0,
            a == spec_setup_step(old(self).platform, old(self).phase, event).1,
    {
        match (self.phase, event) {
            (SetupPhase::Boot, SetupEvent::Begin) => {
                if self.platform.is_desktop() {
                    self.phase = SetupPhase::AwaitingPlacement;
                    SetupAction::RunPlacement
                } else {
                    self.phase = SetupPhase::Done;
                    SetupAction::FinishStartup
                }
            },
            (SetupPhase::AwaitingPlacement, SetupEvent::PlacementSucceeded) => {
                self.phase = SetupPhase::AwaitingEmit;
                SetupAction::EmitReady
            },
            (SetupPhase::AwaitingPlacement, SetupEvent::PlacementFailed) => {
                self.phase = SetupPhase::Failed;
                SetupAction::FailStartup
            },
            (SetupPhase::AwaitingEmit, SetupEvent::EmitSucceeded) => {
                self.phase = SetupPhase::Done;
                SetupAction::FinishStartup
            },
            (SetupPhase::AwaitingEmit, SetupEvent::EmitFailed) => {
                self.phase = SetupPhase::Aborted;
                SetupAction::AbortStartup
            },
            _ => unreached(),
        }
    }
}

/// How many of the steps consuming `events` from phase `p` request the
/// `window-ready` notification.
pub open spec fn count_emits(platform: Platform, p: SetupPhase, events: Seq<SetupEvent>) -> nat
    decreases events.len(),
{
    if events.len() == 0 {
        0
    } else {
        (if spec_setup_step(platform, p, events[0]).1 is EmitReady {
            1nat
        } else {
            0nat
        }) + count_emits(platform, spec_setup_step(platform, p, events[0]).0, events.skip(1))
    }
}

/// How many readiness emissions a run from phase `p` may still request: one
/// until placement has been reported on, none once the emission is pending
/// or the hook is finished.
pub open spec fn emit_budget(p: SetupPhase) -> nat {
    match p {
        SetupPhase::Boot => 1,
        SetupPhase::AwaitingPlacement => 1,
        _ => 0,
    }
}

/// The readiness notification is requested at most once per startup: from
/// any phase, any event sequence makes the hook request at most
/// [`emit_budget`] emissions, so at most one from boot.
pub proof fn lemma_ready_at_most_once(platform: Platform, p: SetupPhase, events: Seq<SetupEvent>)
    ensures
        count_emits(platform, p, events) <= emit_budget(p),
    decreases events.len(),
{
    if events.len() > 0 {
        lemma_ready_at_most_once(platform, spec_setup_step(platform, p, events[0]).0, events.skip(1));
    }
}

/// The readiness notification is requested only in answer to a successful
/// placement run, never before one and never on any other event.
pub proof fn lemma_ready_only_after_success(platform: Platform, p: SetupPhase, e: SetupEvent)
    requires
        spec_setup_step(platform, p, e).1 is EmitReady,
    ensures
        p is AwaitingPlacement,
        e is PlacementSucceeded,
{
}

/// How many accepted steps the setup hook can still take from phase `p`.
pub open spec fn setup_rank(p: SetupPhase) -> nat {
    match p {
        SetupPhase::Boot => 3,
        SetupPhase::AwaitingPlacement => 2,
        SetupPhase::AwaitingEmit => 1,
        SetupPhase::Done => 0,
        SetupPhase::Failed => 0,
        SetupPhase::Aborted => 0,
    }
}

/// Every sequence of accepted events, consumed in order from phase `p`, is
/// accepted at each step.
pub open spec fn setup_accepted_trace(platform: Platform, p: SetupPhase, events: Seq<SetupEvent>) -> bool
    decreases events.len(),
{
    events.len() == 0 || {
        &&& setup_accepts(p, events[0])
        &&& setup_accepted_trace(platform, spec_setup_step(platform, p, events[0]).0, events.skip(1))
    }
}

/// The setup hook runs once and retries nothing: each accepted step strictly
/// lowers [`setup_rank`], so a startup takes at most three steps, and none
/// once the hook is done, failed or aborted.
pub proof fn lemma_setup_is_bounded(platform: Platform, p: SetupPhase, events: Seq<SetupEvent>)
    requires
        setup_accepted_trace(platform, p, events),
    ensures
        events.len() <= setup_rank(p),
    decreases events.len(),
{
    if events.len() > 0 {
        lemma_setup_is_bounded(platform, spec_setup_step(platform, p, events[0]).0, events.skip(1));
    }
}

/// Platform conditioning of the hook: booting on a desktop platform runs
/// placement; booting anywhere else finishes at once, running nothing.
pub proof fn lemma_placement_runs_on_desktop_only(platform: Platform)
    ensures
        platform.spec_is_desktop() ==> spec_setup_step(platform, SetupPhase::Boot, SetupEvent::Begin)
            == (SetupPhase::AwaitingPlacement, SetupAction::RunPlacement),
        !platform.spec_is_desktop() ==> spec_setup_step(
            platform,
            SetupPhase::Boot,
            SetupEvent::Begin,
        ) == (SetupPhase::Done, SetupAction::FinishStartup),
{
}

} // verus!
