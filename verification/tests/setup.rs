use codefend_panel::config::Platform;
use codefend_panel::setup::{SetupAction, SetupController, SetupEvent, SetupPhase};

#[test]
fn desktop_startup_emits_ready_after_placement() {
    let mut s = SetupController::new(Platform::OtherDesktop);
    assert_eq!(s.step(SetupEvent::Begin), SetupAction::RunPlacement);
    assert_eq!(s.step(SetupEvent::PlacementSucceeded), SetupAction::EmitReady);
    assert_eq!(s.step(SetupEvent::EmitSucceeded), SetupAction::FinishStartup);
    assert_eq!(s.phase, SetupPhase::Done);
}

#[test]
fn macos_startup_runs_placement_too() {
    let mut s = SetupController::new(Platform::MacOs);
    assert_eq!(s.step(SetupEvent::Begin), SetupAction::RunPlacement);
}

#[test]
fn mobile_startup_skips_placement() {
    let mut s = SetupController::new(Platform::Mobile);
    assert_eq!(s.step(SetupEvent::Begin), SetupAction::FinishStartup);
    assert_eq!(s.phase, SetupPhase::Done);
}

#[test]
fn placement_failure_is_fatal_to_startup() {
    let mut s = SetupController::new(Platform::OtherDesktop);
    s.step(SetupEvent::Begin);
    assert_eq!(s.step(SetupEvent::PlacementFailed), SetupAction::FailStartup);
    assert_eq!(s.phase, SetupPhase::Failed);
}

#[test]
fn emit_failure_aborts_startup() {
    let mut s = SetupController::new(Platform::OtherDesktop);
    s.step(SetupEvent::Begin);
    s.step(SetupEvent::PlacementSucceeded);
    assert_eq!(s.step(SetupEvent::EmitFailed), SetupAction::AbortStartup);
    assert_eq!(s.phase, SetupPhase::Aborted);
}
