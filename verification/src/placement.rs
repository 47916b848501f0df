//! The window placement controller.
//!
//! Ensuring the main window exists is a short conversation with the window
//! manager: query for an existing `main` window; if absent, build one, apply
//! the minimum size, and — when a monitor is reported — move the window to
//! the monitor's center. The controller holds the decision side of that
//! conversation as a state machine: each call to [`PlacementController::step`]
//! consumes the outcome of the previous request and returns the next
//! [`Action`] for the host to perform. The host side (the actual window
//! manager calls) lives outside the library.

use vstd::prelude::*;
use crate::config::minimum_size;
use crate::geometry::{centered_position, spec_centered, LogicalSize, PhysicalPosition,
    PhysicalSize};

verus! {

/// What the controller asks the host to do next.
///
/// `BuildWindow` asks for a window built per
/// [`crate::config::main_window_config`]. `Finish` reports that placement
/// succeeded; `Fail` that a size or position request was refused (a
/// recoverable error for the caller to propagate); `Abort` that the build
/// itself failed, which leaves no usable application.
#[derive(Clone, Copy, PartialEq, Eq, Structural, Debug)]
pub enum Action {
    QueryWindow,
    BuildWindow,
    SetMinSize(LogicalSize),
    QueryMonitor,
    QueryOuterSize,
    SetPosition(PhysicalPosition),
    Finish,
    Fail,
    Abort,
}

/// The host's report on the controller's last request.
///
/// `MonitorUnavailable` covers both a host that reports no current monitor
/// and a failing monitor query: neither is an error for placement.
#[derive(Clone, Copy, PartialEq, Eq, Structural, Debug)]
pub enum Event {
    Begin,
    WindowFound,
    WindowAbsent,
    BuildSucceeded,
    BuildFailed,
    MinSizeSet,
    MinSizeFailed,
    MonitorReported(PhysicalSize),
    MonitorUnavailable,
    OuterSizeReported(PhysicalSize),
    OuterSizeFailed,
    PositionSet,
    PositionFailed,
}

/// Where the controller stands in the conversation. The waiting phases carry
/// what later steps need: the pending minimum size, the reported monitor
/// size, and the position about to be applied.
#[derive(Clone, Copy, PartialEq, Eq, Structural, Debug)]
pub enum Phase {
    Idle,
    AwaitingExistence,
    AwaitingBuild,
    AwaitingMinSize(LogicalSize),
    AwaitingMonitor,
    AwaitingOuterSize(PhysicalSize),
    AwaitingPosition(PhysicalPosition),
    Succeeded,
    Failed,
    Aborted,
}

/// Which events answer the request made in phase `p`. The terminal phases
/// accept none.
pub open spec fn accepts(p: Phase, e: Event) -> bool {
    match p {
        Phase::Idle => e is Begin,
        Phase::AwaitingExistence => e is WindowFound || e is WindowAbsent,
        Phase::AwaitingBuild => e is BuildSucceeded || e is BuildFailed,
        Phase::AwaitingMinSize(_) => e is MinSizeSet || e is MinSizeFailed,
        Phase::AwaitingMonitor => e is MonitorReported || e is MonitorUnavailable,
        Phase::AwaitingOuterSize(_) => e is OuterSizeReported || e is OuterSizeFailed,
        Phase::AwaitingPosition(_) => e is PositionSet || e is PositionFailed,
        Phase::Succeeded => false,
        Phase::Failed => false,
        Phase::Aborted => false,
    }
}

/// The transition table: from phase `p`, event `e` leads to the next phase
/// and the next action. An event no phase expects changes nothing and fails.
pub open spec fn spec_step(p: Phase, e: Event) -> (Phase, Action) {
    match (p, e) {
        (Phase::Idle, Event::Begin) => (Phase::AwaitingExistence, Action::QueryWindow),
        (Phase::AwaitingExistence, Event::WindowFound) => (Phase::Succeeded, Action::Finish),
        (Phase::AwaitingExistence, Event::WindowAbsent) => (
            Phase::AwaitingBuild,
            Action::BuildWindow,
        ),
        (Phase::AwaitingBuild, Event::BuildSucceeded) => (
            Phase::AwaitingMinSize(minimum_size()),
            Action::SetMinSize(minimum_size()),
        ),
        (Phase::AwaitingBuild, Event::BuildFailed) => (Phase::Aborted, Action::Abort),
        (Phase::AwaitingMinSize(_), Event::MinSizeSet) => (
            Phase::AwaitingMonitor,
            Action::QueryMonitor,
        ),
        (Phase::AwaitingMinSize(_), Event::MinSizeFailed) => (Phase::Failed, Action::Fail),
        (Phase::AwaitingMonitor, Event::MonitorReported(m)) => (
            Phase::AwaitingOuterSize(m),
            Action::QueryOuterSize,
        ),
        (Phase::AwaitingMonitor, Event::MonitorUnavailable) => (Phase::Succeeded, Action::Finish),
        (Phase::AwaitingOuterSize(m), Event::OuterSizeReported(o)) => (
            Phase::AwaitingPosition(spec_centered(m, o)),
            Action::SetPosition(spec_centered(m, o)),
        ),
        (Phase::AwaitingOuterSize(_), Event::OuterSizeFailed) => (Phase::Failed, Action::Fail),
        (Phase::AwaitingPosition(_), Event::PositionSet) => (Phase::Succeeded, Action::Finish),
        (Phase::AwaitingPosition(_), Event::PositionFailed) => (Phase::Failed, Action::Fail),
        _ => (p, Action::Fail),
    }
}

/// The decision side of `ensure_main_window`: a host drives it by performing
/// each returned [`Action`] and feeding the outcome back to [`Self::step`],
/// starting with [`Event::Begin`], until the action is [`Action::Finish`],
/// [`Action::Fail`] or [`Action::Abort`].
pub struct PlacementController {
    pub phase: Phase,
}

impl PlacementController {
    /// A controller ready to begin placement.
    pub fn new() -> (c: PlacementController)
        ensures
            c.phase == Phase::Idle,
    {
        PlacementController { phase: Phase::Idle }
    }

    /// Consume the host's report on the previous request and return the next
    /// action, exactly as [`spec_step`] lays it down.
    pub fn step(&mut self, event: Event) -> (a: Action)
        requires
            accepts(old(self).phase, event),
        ensures
            final(self).phase == spec_step(old(self).phase, event).0,
            a == spec_step(old(self).phase, event).1,
    {
        match (self.phase, event) {
            (Phase::Idle, Event::Begin) => {
                self.phase = Phase::AwaitingExistence;
                Action::QueryWindow
            },
            (Phase::AwaitingExistence, Event::WindowFound) => {
                self.phase = Phase::Succeeded;
                Action::Finish
            },
            (Phase::AwaitingExistence, Event::WindowAbsent) => {
                self.phase = Phase::AwaitingBuild;
                Action::BuildWindow
            },
            (Phase::AwaitingBuild, Event::BuildSucceeded) => {
                let min = LogicalSize { width: 800, height: 600 };
                self.phase = Phase::AwaitingMinSize(min);
                Action::SetMinSize(min)
            },
            (Phase::AwaitingBuild, Event::BuildFailed) => {
                self.phase = Phase::Aborted;
                Action::Abort
            },
            (Phase::AwaitingMinSize(_), Event::MinSizeSet) => {
                self.phase = Phase::AwaitingMonitor;
                Action::QueryMonitor
            },
            (Phase::AwaitingMinSize(_), Event::MinSizeFailed) => {
                self.phase = Phase::Failed;
                Action::Fail
            },
            (Phase::AwaitingMonitor, Event::MonitorReported(m)) => {
                self.phase = Phase::AwaitingOuterSize(m);
                Action::QueryOuterSize
            },
            (Phase::AwaitingMonitor, Event::MonitorUnavailable) => {
                self.phase = Phase::Succeeded;
                Action::Finish
            },
            (Phase::AwaitingOuterSize(m), Event::OuterSizeReported(o)) => {
                let pos = centered_position(m, o);
                self.phase = Phase::AwaitingPosition(pos);
                Action::SetPosition(pos)
            },
            (Phase::AwaitingOuterSize(_), Event::OuterSizeFailed) => {
                self.phase = Phase::Failed;
                Action::Fail
            },
            (Phase::AwaitingPosition(_), Event::PositionSet) => {
                self.phase = Phase::Succeeded;
                Action::Finish
            },
            (Phase::AwaitingPosition(_), Event::PositionFailed) => {
                self.phase = Phase::Failed;
                Action::Fail
            },
            _ => unreached(),
        }
    }
}

} // verus!
