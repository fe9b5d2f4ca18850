//! Placement of the widget window on the primary monitor.
use vstd::prelude::*;

verus! {

/// Gap, in pixels, between the widget and the right edge of the monitor.
pub const RIGHT_MARGIN: u32 = 20;

/// Where the widget's top-left corner goes on a monitor of the given size:
/// `RIGHT_MARGIN` pixels from the right edge and vertically centred, each
/// coordinate clamped at zero when the window does not fit.
pub fn widget_position(monitor_width: u32, monitor_height: u32, window_width: u32, window_height: u32) -> (r: (u32, u32))
    requires
        window_width + RIGHT_MARGIN <= u32::MAX,
    ensures
        r.0 == (if monitor_width >= window_width + RIGHT_MARGIN {
            monitor_width - window_width - RIGHT_MARGIN
        } else {
            0
        }),
        r.1 == (if monitor_height >= window_height {
            monitor_height - window_height
        } else {
            0
        }) / 2,
{
    let x = monitor_width.saturating_sub(window_width + RIGHT_MARGIN);
    let y = monitor_height.saturating_sub(window_height) / 2;
    (x, y)
}

} // verus!
