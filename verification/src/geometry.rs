//! Sizes, positions, and the centering arithmetic of the placement policy.

use vstd::prelude::*;

verus! {

/// A size in physical (device) pixels, as the window manager reports it for
/// monitors and for a window's outer bounds.
#[derive(Clone, Copy, PartialEq, Eq, Structural, Debug)]
pub struct PhysicalSize {
    pub width: u32,
    pub height: u32,
}

/// A coordinate on the physical pixel grid. Either component may be negative
/// when a window is larger than the monitor it is centered on.
#[derive(Clone, Copy, PartialEq, Eq, Structural, Debug)]
pub struct PhysicalPosition {
    pub x: i32,
    pub y: i32,
}

/// A resolution-independent size in logical pixels; the window manager scales
/// it to physical pixels by the display's scale factor.
#[derive(Clone, Copy, PartialEq, Eq, Structural, Debug)]
pub struct LogicalSize {
    pub width: u32,
    pub height: u32,
}

/// Half of `d`, rounded toward zero: the rounding the placement policy uses
/// when it halves a (possibly negative) difference of pixel extents.
pub open spec fn half_toward_zero(d: int) -> int {
    if d >= 0 {
        d / 2
    } else {
        -((-d) / 2)
    }
}

/// The centered position for a window of outer size `outer` on a monitor of
/// size `monitor`: half the leftover extent on each axis, rounded toward zero.
pub open spec fn spec_centered(monitor: PhysicalSize, outer: PhysicalSize) -> PhysicalPosition {
    PhysicalPosition {
        x: half_toward_zero(monitor.width - outer.width) as i32,
        y: half_toward_zero(monitor.height - outer.height) as i32,
    }
}

/// The centered coordinate on one axis: half the difference between the
/// monitor extent and the window extent, rounded toward zero.
pub fn centered_coordinate(monitor_extent: u32, window_extent: u32) -> (c: i32)
    ensures
        c == half_toward_zero(monitor_extent - window_extent),
        window_extent <= monitor_extent ==> c == (monitor_extent - window_extent) / 2,
{
    if window_extent <= monitor_extent {
        let half: u32 = (monitor_extent - window_extent) / 2;
        half as i32
    } else {
        let half: u32 = (window_extent - monitor_extent) / 2;
        -(half as i32)
    }
}

/// The centered top-left position for a window of outer size `outer` on a
/// monitor of size `monitor`. When the window fits on the monitor this is
/// exactly (floor((Mw - Ww) / 2), floor((Mh - Wh) / 2)).
pub fn centered_position(monitor: PhysicalSize, outer: PhysicalSize) -> (p: PhysicalPosition)
    ensures
        p == spec_centered(monitor, outer),
        p.x == half_toward_zero(monitor.width - outer.width),
        p.y == half_toward_zero(monitor.height - outer.height),
        outer.width <= monitor.width ==> p.x == (monitor.width - outer.width) / 2,
        outer.height <= monitor.height ==> p.y == (monitor.height - outer.height) / 2,
{
    PhysicalPosition {
        x: centered_coordinate(monitor.width, outer.width),
        y: centered_coordinate(monitor.height, outer.height),
    }
}

} // verus!
