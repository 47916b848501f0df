//! Laws of the placement conversation.
//!
//! The controller's per-step contract pins each transition; this module
//! states what whole conversations achieve. A window manager is modeled by
//! the part of its state the routine touches ([`HostState`]) together with
//! the honest responses it may give ([`honest`]); a run is any sequence of
//! events the manager could emit while the controller drives it. The lemmas
//! here prove the placement policy's promises over every such run: at most
//! one window is ever created, a present `main` window makes the run a
//! no-op, a successful creation run leaves the minimum size applied, a
//! missing monitor still succeeds and never repositions, and the only
//! position ever applied is the centered one.

use vstd::prelude::*;
use crate::config::{main_label, minimum_size};
use crate::geometry::{spec_centered, LogicalSize, PhysicalPosition, PhysicalSize};
use crate::placement::{accepts, spec_step, Action, Event, Phase};

verus! {

/// The slice of window-manager state the placement routine touches: which
/// window labels exist, and the minimum size and position last applied to
/// the `main` window (`None`: never applied, the manager's default stands).
pub struct HostState {
    pub windows: Set<Seq<char>>,
    pub main_min_size: Option<LogicalSize>,
    pub main_position: Option<PhysicalPosition>,
}

/// How the manager's state changes when it answers the request pending in
/// phase `p` with event `e`: a successful build brings the `main` label into
/// existence, and successful size or position requests record what the
/// controller asked for (the value carried in the phase).
pub open spec fn host_after(h: HostState, p: Phase, e: Event) -> HostState {
    match (p, e) {
        (Phase::AwaitingBuild, Event::BuildSucceeded) => HostState {
            windows: h.windows.insert(main_label()),
            main_min_size: h.main_min_size,
            main_position: h.main_position,
        },
        (Phase::AwaitingMinSize(s), Event::MinSizeSet) => HostState {
            windows: h.windows,
            main_min_size: Some(s),
            main_position: h.main_position,
        },
        (Phase::AwaitingPosition(pos), Event::PositionSet) => HostState {
            windows: h.windows,
            main_min_size: h.main_min_size,
            main_position: Some(pos),
        },
        _ => h,
    }
}

/// An honest response: one the pending request admits, and — for the
/// existence query — one that tells the truth about the `main` window.
/// Everything else (build outcomes, reported sizes, a missing monitor) is
/// the manager's to choose.
pub open spec fn honest(h: HostState, p: Phase, e: Event) -> bool {
    accepts(p, e) && (p is AwaitingExistence ==> (e is WindowFound <==> h.windows.contains(
        main_label(),
    )))
}

/// Every event of `events`, consumed in order from phase `p` and manager
/// state `h`, is an honest response.
pub open spec fn honest_trace(p: Phase, h: HostState, events: Seq<Event>) -> bool
    decreases events.len(),
{
    events.len() == 0 || {
        &&& honest(h, p, events[0])
        &&& honest_trace(spec_step(p, events[0]).0, host_after(h, p, events[0]), events.skip(1))
    }
}

/// The controller's phase after consuming `events` from phase `p`.
pub open spec fn run_phase(p: Phase, events: Seq<Event>) -> Phase
    decreases events.len(),
{
    if events.len() == 0 {
        p
    } else {
        run_phase(spec_step(p, events[0]).0, events.skip(1))
    }
}

/// The manager's state after consuming `events` from phase `p` and state `h`.
pub open spec fn run_host(p: Phase, h: HostState, events: Seq<Event>) -> HostState
    decreases events.len(),
{
    if events.len() == 0 {
        h
    } else {
        run_host(spec_step(p, events[0]).0, host_after(h, p, events[0]), events.skip(1))
    }
}

/// How many of the steps consuming `events` from phase `p` request a window
/// build.
pub open spec fn count_builds(p: Phase, events: Seq<Event>) -> nat
    decreases events.len(),
{
    if events.len() == 0 {
        0
    } else {
        (if spec_step(p, events[0]).1 is BuildWindow {
            1nat
        } else {
            0nat
        }) + count_builds(spec_step(p, events[0]).0, events.skip(1))
    }
}

/// How many builds a run from phase `p` may still request: one before the
/// existence query is answered, none after.
pub open spec fn build_budget(p: Phase) -> nat {
    match p {
        Phase::Idle => 1,
        Phase::AwaitingExistence => 1,
        _ => 0,
    }
}

/// At most one window is ever created per run: from any phase, any event
/// sequence — honest or not — makes the controller request at most
/// [`build_budget`] builds, so at most one from the start.
pub proof fn lemma_at_most_one_build(p: Phase, events: Seq<Event>)
    ensures
        count_builds(p, events) <= build_budget(p),
    decreases events.len(),
{
    if events.len() > 0 {
        lemma_at_most_one_build(spec_step(p, events[0]).0, events.skip(1));
    }
}

/// Idempotency, one run: while the `main` window exists, an honest run
/// changes nothing in the manager, requests no build, and never leaves the
/// query/success phases.
pub proof fn lemma_run_with_main_is_noop(p: Phase, h: HostState, events: Seq<Event>)
    requires
        h.windows.contains(main_label()),
        p is Idle || p is AwaitingExistence || p is Succeeded,
        honest_trace(p, h, events),
    ensures
        run_host(p, h, events) == h,
        count_builds(p, events) == 0,
        run_phase(p, events) is Idle || run_phase(p, events) is AwaitingExistence || run_phase(
            p,
            events,
        ) is Succeeded,
    decreases events.len(),
{
    if events.len() > 0 {
        let e = events[0];
        lemma_run_with_main_is_noop(spec_step(p, e).0, host_after(h, p, e), events.skip(1));
    }
}

/// How many honest steps a run from phase `p` can still take before it
/// reaches a terminal phase.
pub open spec fn phase_rank(p: Phase) -> nat {
    match p {
        Phase::Idle => 7,
        Phase::AwaitingExistence => 6,
        Phase::AwaitingBuild => 5,
        Phase::AwaitingMinSize(_) => 4,
        Phase::AwaitingMonitor => 3,
        Phase::AwaitingOuterSize(_) => 2,
        Phase::AwaitingPosition(_) => 1,
        Phase::Succeeded => 0,
        Phase::Failed => 0,
        Phase::Aborted => 0,
    }
}

/// Every operation is one-shot and nothing is retried: each honest step
/// strictly lowers [`phase_rank`], so a run from the start takes at most
/// seven steps, and none once a terminal phase is reached.
pub proof fn lemma_runs_are_bounded(p: Phase, h: HostState, events: Seq<Event>)
    requires
        honest_trace(p, h, events),
    ensures
        events.len() <= phase_rank(p),
    decreases events.len(),
{
    if events.len() > 0 {
        let e = events[0];
        lemma_runs_are_bounded(spec_step(p, e).0, host_after(h, p, e), events.skip(1));
    }
}

/// The invariant behind [`lemma_success_establishes_main`]: once the
/// controller has passed the build, the `main` window exists.
pub open spec fn main_present_inv(p: Phase, h: HostState) -> bool {
    match p {
        Phase::AwaitingMinSize(_) => h.windows.contains(main_label()),
        Phase::AwaitingMonitor => h.windows.contains(main_label()),
        Phase::AwaitingOuterSize(_) => h.windows.contains(main_label()),
        Phase::AwaitingPosition(_) => h.windows.contains(main_label()),
        Phase::Succeeded => h.windows.contains(main_label()),
        _ => true,
    }
}

/// Honest steps preserve [`main_present_inv`] along a whole run.
pub proof fn lemma_main_present_inv(p: Phase, h: HostState, events: Seq<Event>)
    requires
        main_present_inv(p, h),
        honest_trace(p, h, events),
    ensures
        main_present_inv(run_phase(p, events), run_host(p, h, events)),
    decreases events.len(),
{
    if events.len() > 0 {
        let e = events[0];
        lemma_main_present_inv(spec_step(p, e).0, host_after(h, p, e), events.skip(1));
    }
}

/// A run that ends in success leaves a `main` window existing.
pub proof fn lemma_success_establishes_main(h: HostState, events: Seq<Event>)
    requires
        honest_trace(Phase::Idle, h, events),
        run_phase(Phase::Idle, events) is Succeeded,
    ensures
        run_host(Phase::Idle, h, events).windows.contains(main_label()),
{
    lemma_main_present_inv(Phase::Idle, h, events);
}

/// Idempotency of the whole routine: after a run that ended in success, a
/// second honest run creates no window and leaves the manager exactly as the
/// first run left it — one `main` window exists afterward.
pub proof fn lemma_second_run_is_noop(h: HostState, first: Seq<Event>, second: Seq<Event>)
    requires
        honest_trace(Phase::Idle, h, first),
        run_phase(Phase::Idle, first) is Succeeded,
        honest_trace(Phase::Idle, run_host(Phase::Idle, h, first), second),
    ensures
        run_host(Phase::Idle, h, first).windows.contains(main_label()),
        run_host(Phase::Idle, run_host(Phase::Idle, h, first), second) == run_host(
            Phase::Idle,
            h,
            first,
        ),
        count_builds(Phase::Idle, second) == 0,
{
    lemma_success_establishes_main(h, first);
    lemma_run_with_main_is_noop(Phase::Idle, run_host(Phase::Idle, h, first), second);
}

/// Idempotency, end to end: when a `main` window exists, the conversation is
/// two steps — query, found — an honest run that succeeds with the manager
/// untouched.
pub proof fn lemma_existing_window_run_succeeds(h: HostState)
    requires
        h.windows.contains(main_label()),
    ensures
        ({
            let events = seq![Event::Begin, Event::WindowFound];
            &&& honest_trace(Phase::Idle, h, events)
            &&& run_phase(Phase::Idle, events) is Succeeded
            &&& run_host(Phase::Idle, h, events) == h
        }),
{
    let ev2 = seq![Event::Begin, Event::WindowFound];
    let ev1 = ev2.skip(1);
    let ev0 = ev1.skip(1);
    assert(ev0.len() == 0);
    assert(honest_trace(Phase::Succeeded, h, ev0));
    assert(honest_trace(Phase::AwaitingExistence, h, ev1));
    assert(honest_trace(Phase::Idle, h, ev2));
    assert(run_phase(Phase::Succeeded, ev0) is Succeeded);
    assert(run_phase(Phase::AwaitingExistence, ev1) is Succeeded);
    assert(run_phase(Phase::Idle, ev2) is Succeeded);
    assert(run_host(Phase::Succeeded, h, ev0) == h);
    assert(run_host(Phase::AwaitingExistence, h, ev1) == h);
    assert(run_host(Phase::Idle, h, ev2) == h);
}

/// The invariant behind [`lemma_creation_run_sets_min_size`]: in a run that
/// began with no `main` window, the minimum-size phase always carries the
/// policy minimum, and every phase past it has that minimum applied.
pub open spec fn sizing_inv(p: Phase, h: HostState) -> bool {
    match p {
        Phase::Idle => !h.windows.contains(main_label()),
        Phase::AwaitingExistence => !h.windows.contains(main_label()),
        Phase::AwaitingMinSize(s) => s == minimum_size(),
        Phase::AwaitingMonitor => h.main_min_size == Some(minimum_size()),
        Phase::AwaitingOuterSize(_) => h.main_min_size == Some(minimum_size()),
        Phase::AwaitingPosition(_) => h.main_min_size == Some(minimum_size()),
        Phase::Succeeded => h.main_min_size == Some(minimum_size()),
        _ => true,
    }
}

/// Honest steps preserve [`sizing_inv`] along a whole run.
pub proof fn lemma_sizing_inv(p: Phase, h: HostState, events: Seq<Event>)
    requires
        sizing_inv(p, h),
        honest_trace(p, h, events),
    ensures
        sizing_inv(run_phase(p, events), run_host(p, h, events)),
    decreases events.len(),
{
    if events.len() > 0 {
        let e = events[0];
        lemma_sizing_inv(spec_step(p, e).0, host_after(h, p, e), events.skip(1));
    }
}

/// Sizing: a run that began with no `main` window and ended in success has
/// applied exactly the policy minimum size, 800x600 logical, to the window.
pub proof fn lemma_creation_run_sets_min_size(h: HostState, events: Seq<Event>)
    requires
        !h.windows.contains(main_label()),
        honest_trace(Phase::Idle, h, events),
        run_phase(Phase::Idle, events) is Succeeded,
    ensures
        run_host(Phase::Idle, h, events).main_min_size == Some(minimum_size()),
{
    lemma_sizing_inv(Phase::Idle, h, events);
}

/// The only minimum size the controller ever requests is the policy minimum.
pub proof fn lemma_min_size_requests_are_policy(p: Phase, e: Event, s: LogicalSize)
    requires
        spec_step(p, e).1 == Action::SetMinSize(s),
    ensures
        s == minimum_size(),
{
}

/// Centering: a position is requested only in answer to a reported outer
/// size, in the phase that holds the reported monitor size, and it is
/// exactly the centered position for the two.
pub proof fn lemma_positions_are_centered(p: Phase, e: Event, pos: PhysicalPosition)
    requires
        spec_step(p, e).1 == Action::SetPosition(pos),
    ensures
        p is AwaitingOuterSize,
        e is OuterSizeReported,
        pos == spec_centered(p->AwaitingOuterSize_0, e->OuterSizeReported_0),
{
}

/// The monitor size the controller centers against is exactly the one the
/// manager reported: the outer-size query phase is entered only by a monitor
/// report, and carries that report's size.
pub proof fn lemma_carried_monitor_is_reported(p: Phase, e: Event)
    requires
        accepts(p, e),
        spec_step(p, e).0 is AwaitingOuterSize,
    ensures
        p is AwaitingMonitor,
        e is MonitorReported,
        spec_step(p, e).0->AwaitingOuterSize_0 == e->MonitorReported_0,
{
}

/// Centering, end to end: when no `main` window exists, the complete
/// creation conversation whose manager reports monitor size `m` and outer
/// window size `o` is an honest run, succeeds, and leaves the window with
/// the policy minimum size and at exactly the centered position for `m` and
/// `o`.
pub proof fn lemma_creation_run_centers(h: HostState, m: PhysicalSize, o: PhysicalSize)
    requires
        !h.windows.contains(main_label()),
    ensures
        ({
            let events = seq![
                Event::Begin,
                Event::WindowAbsent,
                Event::BuildSucceeded,
                Event::MinSizeSet,
                Event::MonitorReported(m),
                Event::OuterSizeReported(o),
                Event::PositionSet,
            ];
            &&& honest_trace(Phase::Idle, h, events)
            &&& run_phase(Phase::Idle, events) is Succeeded
            &&& run_host(Phase::Idle, h, events).main_position == Some(spec_centered(m, o))
            &&& run_host(Phase::Idle, h, events).main_min_size == Some(minimum_size())
        }),
{
    let ev7 = seq![
        Event::Begin,
        Event::WindowAbsent,
        Event::BuildSucceeded,
        Event::MinSizeSet,
        Event::MonitorReported(m),
        Event::OuterSizeReported(o),
        Event::PositionSet,
    ];
    let ev6 = ev7.skip(1);
    let ev5 = ev6.skip(1);
    let ev4 = ev5.skip(1);
    let ev3 = ev4.skip(1);
    let ev2 = ev3.skip(1);
    let ev1 = ev2.skip(1);
    let ev0 = ev1.skip(1);
    assert(ev0.len() == 0);
    let h2 = host_after(h, Phase::AwaitingBuild, Event::BuildSucceeded);
    let h3 = host_after(h2, Phase::AwaitingMinSize(minimum_size()), Event::MinSizeSet);
    let pos = spec_centered(m, o);
    let h6 = host_after(h3, Phase::AwaitingPosition(pos), Event::PositionSet);
    assert(honest_trace(Phase::Succeeded, h6, ev0));
    assert(honest_trace(Phase::AwaitingPosition(pos), h3, ev1));
    assert(honest_trace(Phase::AwaitingOuterSize(m), h3, ev2));
    assert(honest_trace(Phase::AwaitingMonitor, h3, ev3));
    assert(honest_trace(Phase::AwaitingMinSize(minimum_size()), h2, ev4));
    assert(honest_trace(Phase::AwaitingBuild, h, ev5));
    assert(honest_trace(Phase::AwaitingExistence, h, ev6));
    assert(honest_trace(Phase::Idle, h, ev7));
    assert(run_phase(Phase::Succeeded, ev0) is Succeeded);
    assert(run_phase(Phase::AwaitingPosition(pos), ev1) is Succeeded);
    assert(run_phase(Phase::AwaitingOuterSize(m), ev2) is Succeeded);
    assert(run_phase(Phase::AwaitingMonitor, ev3) is Succeeded);
    assert(run_phase(Phase::AwaitingMinSize(minimum_size()), ev4) is Succeeded);
    assert(run_phase(Phase::AwaitingBuild, ev5) is Succeeded);
    assert(run_phase(Phase::AwaitingExistence, ev6) is Succeeded);
    assert(run_phase(Phase::Idle, ev7) is Succeeded);
    assert(run_host(Phase::Succeeded, h6, ev0) == h6);
    assert(run_host(Phase::AwaitingPosition(pos), h3, ev1) == h6);
    assert(run_host(Phase::AwaitingOuterSize(m), h3, ev2) == h6);
    assert(run_host(Phase::AwaitingMonitor, h3, ev3) == h6);
    assert(run_host(Phase::AwaitingMinSize(minimum_size()), h2, ev4) == h6);
    assert(run_host(Phase::AwaitingBuild, h, ev5) == h6);
    assert(run_host(Phase::AwaitingExistence, h, ev6) == h6);
    assert(run_host(Phase::Idle, h, ev7) == h6);
}

/// Graceful degradation, the step itself: a manager that reports no monitor
/// ends the run in immediate success — no error, no repositioning.
pub proof fn lemma_no_monitor_is_success(p: Phase)
    requires
        p is AwaitingMonitor,
    ensures
        spec_step(p, Event::MonitorUnavailable) == (Phase::Succeeded, Action::Finish),
{
}

/// Graceful degradation, end to end: when no `main` window exists and the
/// manager reports no monitor, the creation conversation is an honest run,
/// still succeeds, and leaves the window's position untouched.
pub proof fn lemma_no_monitor_run_succeeds(h: HostState)
    requires
        !h.windows.contains(main_label()),
    ensures
        ({
            let events = seq![
                Event::Begin,
                Event::WindowAbsent,
                Event::BuildSucceeded,
                Event::MinSizeSet,
                Event::MonitorUnavailable,
            ];
            &&& honest_trace(Phase::Idle, h, events)
            &&& run_phase(Phase::Idle, events) is Succeeded
            &&& run_host(Phase::Idle, h, events).main_position == h.main_position
            &&& run_host(Phase::Idle, h, events).main_min_size == Some(minimum_size())
        }),
{
    let ev5 = seq![
        Event::Begin,
        Event::WindowAbsent,
        Event::BuildSucceeded,
        Event::MinSizeSet,
        Event::MonitorUnavailable,
    ];
    let ev4 = ev5.skip(1);
    let ev3 = ev4.skip(1);
    let ev2 = ev3.skip(1);
    let ev1 = ev2.skip(1);
    let ev0 = ev1.skip(1);
    assert(ev0.len() == 0);
    let h2 = host_after(h, Phase::AwaitingBuild, Event::BuildSucceeded);
    let h3 = host_after(h2, Phase::AwaitingMinSize(minimum_size()), Event::MinSizeSet);
    assert(honest_trace(Phase::Succeeded, h3, ev0));
    assert(honest_trace(Phase::AwaitingMonitor, h3, ev1));
    assert(honest_trace(Phase::AwaitingMinSize(minimum_size()), h2, ev2));
    assert(honest_trace(Phase::AwaitingBuild, h, ev3));
    assert(honest_trace(Phase::AwaitingExistence, h, ev4));
    assert(honest_trace(Phase::Idle, h, ev5));
    assert(run_phase(Phase::Succeeded, ev0) is Succeeded);
    assert(run_phase(Phase::AwaitingMonitor, ev1) is Succeeded);
    assert(run_phase(Phase::AwaitingMinSize(minimum_size()), ev2) is Succeeded);
    assert(run_phase(Phase::AwaitingBuild, ev3) is Succeeded);
    assert(run_phase(Phase::AwaitingExistence, ev4) is Succeeded);
    assert(run_phase(Phase::Idle, ev5) is Succeeded);
    assert(run_host(Phase::Succeeded, h3, ev0) == h3);
    assert(run_host(Phase::AwaitingMonitor, h3, ev1) == h3);
    assert(run_host(Phase::AwaitingMinSize(minimum_size()), h2, ev2) == h3);
    assert(run_host(Phase::AwaitingBuild, h, ev3) == h3);
    assert(run_host(Phase::AwaitingExistence, h, ev4) == h3);
    assert(run_host(Phase::Idle, h, ev5) == h3);
}

/// Graceful degradation, the whole run: while no monitor is ever reported,
/// the window's position is never touched.
pub proof fn lemma_no_monitor_no_reposition(p: Phase, h: HostState, events: Seq<Event>)
    requires
        !(p is AwaitingOuterSize),
        !(p is AwaitingPosition),
        forall|i: int| 0 <= i < events.len() ==> !(#[trigger] events[i] is MonitorReported),
    ensures
        run_host(p, h, events).main_position == h.main_position,
    decreases events.len(),
{
    if events.len() > 0 {
        let e = events[0];
        assert forall|i: int| 0 <= i < events.skip(1).len() implies !(#[trigger] events.skip(1)[i]
            is MonitorReported) by {
            assert(events.skip(1)[i] == events[i + 1]);
        }
        lemma_no_monitor_no_reposition(spec_step(p, e).0, host_after(h, p, e), events.skip(1));
    }
}

} // verus!
