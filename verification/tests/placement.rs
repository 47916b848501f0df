use codefend_panel::geometry::{LogicalSize, PhysicalPosition, PhysicalSize};
use codefend_panel::placement::{Action, Event, Phase, PlacementController};

#[test]
fn existing_window_makes_run_a_noop() {
    let mut c = PlacementController::new();
    assert_eq!(c.step(Event::Begin), Action::QueryWindow);
    assert_eq!(c.step(Event::WindowFound), Action::Finish);
    assert_eq!(c.phase, Phase::Succeeded);
}

#[test]
fn creation_run_builds_sizes_and_centers() {
    let mut c = PlacementController::new();
    assert_eq!(c.step(Event::Begin), Action::QueryWindow);
    assert_eq!(c.step(Event::WindowAbsent), Action::BuildWindow);
    assert_eq!(
        c.step(Event::BuildSucceeded),
        Action::SetMinSize(LogicalSize { width: 800, height: 600 })
    );
    assert_eq!(c.step(Event::MinSizeSet), Action::QueryMonitor);
    assert_eq!(
        c.step(Event::MonitorReported(PhysicalSize { width: 1920, height: 1080 })),
        Action::QueryOuterSize
    );
    assert_eq!(
        c.step(Event::OuterSizeReported(PhysicalSize { width: 800, height: 620 })),
        Action::SetPosition(PhysicalPosition { x: 560, y: 230 })
    );
    assert_eq!(c.step(Event::PositionSet), Action::Finish);
    assert_eq!(c.phase, Phase::Succeeded);
}

#[test]
fn missing_monitor_still_succeeds_without_repositioning() {
    let mut c = PlacementController::new();
    assert_eq!(c.step(Event::Begin), Action::QueryWindow);
    assert_eq!(c.step(Event::WindowAbsent), Action::BuildWindow);
    assert_eq!(
        c.step(Event::BuildSucceeded),
        Action::SetMinSize(LogicalSize { width: 800, height: 600 })
    );
    assert_eq!(c.step(Event::MinSizeSet), Action::QueryMonitor);
    assert_eq!(c.step(Event::MonitorUnavailable), Action::Finish);
    assert_eq!(c.phase, Phase::Succeeded);
}

#[test]
fn oversized_window_centers_toward_zero() {
    let mut c = PlacementController::new();
    c.step(Event::Begin);
    c.step(Event::WindowAbsent);
    c.step(Event::BuildSucceeded);
    c.step(Event::MinSizeSet);
    c.step(Event::MonitorReported(PhysicalSize { width: 640, height: 480 }));
    assert_eq!(
        c.step(Event::OuterSizeReported(PhysicalSize { width: 801, height: 601 })),
        Action::SetPosition(PhysicalPosition { x: -80, y: -60 })
    );
}

#[test]
fn build_failure_aborts() {
    let mut c = PlacementController::new();
    c.step(Event::Begin);
    c.step(Event::WindowAbsent);
    assert_eq!(c.step(Event::BuildFailed), Action::Abort);
    assert_eq!(c.phase, Phase::Aborted);
}

#[test]
fn min_size_failure_is_recoverable_error() {
    let mut c = PlacementController::new();
    c.step(Event::Begin);
    c.step(Event::WindowAbsent);
    c.step(Event::BuildSucceeded);
    assert_eq!(c.step(Event::MinSizeFailed), Action::Fail);
    assert_eq!(c.phase, Phase::Failed);
}

#[test]
fn outer_size_failure_is_recoverable_error() {
    let mut c = PlacementController::new();
    c.step(Event::Begin);
    c.step(Event::WindowAbsent);
    c.step(Event::BuildSucceeded);
    c.step(Event::MinSizeSet);
    c.step(Event::MonitorReported(PhysicalSize { width: 1920, height: 1080 }));
    assert_eq!(c.step(Event::OuterSizeFailed), Action::Fail);
    assert_eq!(c.phase, Phase::Failed);
}

#[test]
fn position_failure_is_recoverable_error() {
    let mut c = PlacementController::new();
    c.step(Event::Begin);
    c.step(Event::WindowAbsent);
    c.step(Event::BuildSucceeded);
    c.step(Event::MinSizeSet);
    c.step(Event::MonitorReported(PhysicalSize { width: 1920, height: 1080 }));
    c.step(Event::OuterSizeReported(PhysicalSize { width: 800, height: 600 }));
    assert_eq!(c.step(Event::PositionFailed), Action::Fail);
    assert_eq!(c.phase, Phase::Failed);
}
