use codefend_panel::config::{main_window_config, Platform};
use codefend_panel::geometry::LogicalSize;

#[test]
fn policy_values_are_fixed() {
    let c = main_window_config(Platform::OtherDesktop);
    assert_eq!(c.label, "main");
    assert_eq!(c.title, "Codefend Panel");
    assert_eq!(c.inner_size, LogicalSize { width: 800, height: 600 });
    assert_eq!(c.min_size, LogicalSize { width: 800, height: 600 });
    assert!(c.resizable);
    assert!(c.maximized);
}

#[test]
fn non_macos_disables_decorations_and_enables_transparency() {
    let c = main_window_config(Platform::OtherDesktop);
    assert_eq!(c.decorations, Some(false));
    assert_eq!(c.transparent, Some(true));
}

#[test]
fn macos_keeps_platform_defaults() {
    let c = main_window_config(Platform::MacOs);
    assert_eq!(c.decorations, None);
    assert_eq!(c.transparent, None);
}

#[test]
fn desktop_platforms_are_desktop() {
    assert!(Platform::MacOs.is_desktop());
    assert!(Platform::OtherDesktop.is_desktop());
    assert!(!Platform::Mobile.is_desktop());
}
