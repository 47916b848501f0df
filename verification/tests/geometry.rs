use codefend_panel::geometry::{centered_coordinate, centered_position, PhysicalPosition,
    PhysicalSize};

#[test]
fn centers_window_on_hd_monitor() {
    let p = centered_position(
        PhysicalSize { width: 1920, height: 1080 },
        PhysicalSize { width: 800, height: 600 },
    );
    assert_eq!(p, PhysicalPosition { x: 560, y: 240 });
}

#[test]
fn equal_sizes_center_at_origin() {
    let p = centered_position(
        PhysicalSize { width: 800, height: 600 },
        PhysicalSize { width: 800, height: 600 },
    );
    assert_eq!(p, PhysicalPosition { x: 0, y: 0 });
}

#[test]
fn odd_differences_round_down() {
    assert_eq!(centered_coordinate(101, 100), 0);
    assert_eq!(centered_coordinate(103, 100), 1);
}

#[test]
fn oversized_window_rounds_toward_zero() {
    let p = centered_position(
        PhysicalSize { width: 100, height: 100 },
        PhysicalSize { width: 103, height: 105 },
    );
    assert_eq!(p, PhysicalPosition { x: -1, y: -2 });
}

#[test]
fn largest_monitor_still_fits_coordinates() {
    assert_eq!(centered_coordinate(u32::MAX, 0), i32::MAX);
    assert_eq!(centered_coordinate(0, u32::MAX), -i32::MAX);
}
