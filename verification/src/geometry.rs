//! Placement arithmetic for the two auxiliary windows.
//!
//! Everything here is integer arithmetic. Positions are absolute device
//! pixels; window sizes are logical points, the unit in which a window is
//! requested from the host. A display's scale factor is carried in
//! thousandths (`1000` is 100 %, `1250` is 125 %).

use vstd::prelude::*;

verus! {

/// Edge length of the floating button, in logical points.
pub const FAB_SIZE: u32 = 56;

/// Gap kept between the floating button and the work area's edges, in logical points.
pub const EDGE_MARGIN: u32 = 16;

/// Share of the work area's width that the overlay takes, in percent.
pub const OVERLAY_WIDTH_PERCENT: u32 = 40;

/// Height of the overlay, in logical points.
pub const OVERLAY_HEIGHT: u32 = 140;

/// Radius of the overlay's two rounded corners, in logical points.
pub const CORNER_RADIUS: u32 = 16;

/// Width of the work area assumed when no display can be queried.
pub const FALLBACK_WIDTH: u32 = 1920;

/// Height of the work area assumed when no display can be queried.
pub const FALLBACK_HEIGHT: u32 = 1080;

/// The scale factor 1.0, in thousandths.
pub const UNIT_SCALE: u32 = 1000;

/// The usable area of one display (what the taskbar or dock leaves free), in
/// device pixels, and the display's scale factor in thousandths.
#[derive(Clone, Copy, Debug, PartialEq, Eq, Structural)]
pub struct MonitorInfo {
    pub work_x: i32,
    pub work_y: i32,
    pub work_w: u32,
    pub work_h: u32,
    pub scale_milli: u32,
}

/// A window origin in absolute device pixels.
#[derive(Clone, Copy, Debug, PartialEq, Eq, Structural)]
pub struct PhysicalPosition {
    pub x: i32,
    pub y: i32,
}

/// A window size in logical points.
#[derive(Clone, Copy, Debug, PartialEq, Eq, Structural)]
pub struct LogicalSize {
    pub width: u32,
    pub height: u32,
}

/// Device pixels covered by `points` logical points at `scale_milli`
/// thousandths, rounded to the nearest pixel (halves round up).
pub open spec fn physical_from_logical(points: int, scale_milli: int) -> int {
    (points * scale_milli + 500) / 1000
}

/// Whole logical points that fit into `pixels` device pixels at `scale_milli`
/// thousandths.
pub open spec fn logical_from_physical(pixels: int, scale_milli: int) -> int {
    pixels * 1000 / scale_milli
}

/// `v`, or the nearest `i32` where `v` lies outside that type.
pub open spec fn clamp_to_i32(v: int) -> int {
    if v < i32::MIN {
        i32::MIN as int
    } else if v > i32::MAX {
        i32::MAX as int
    } else {
        v
    }
}

/// `v`, or the nearest `u32` where `v` lies outside that type.
pub open spec fn clamp_to_u32(v: int) -> int {
    if v < 0 {
        0
    } else if v > u32::MAX {
        u32::MAX as int
    } else {
        v
    }
}

/// The display assumed when none can be queried: 1920 by 1080 at the
/// origin, scale 1.0.
pub open spec fn fallback_monitor() -> MonitorInfo {
    MonitorInfo { work_x: 0, work_y: 0, work_w: 1920, work_h: 1080, scale_milli: 1000 }
}

/// The monitor to lay out on: `found` where the host knew one, the fallback
/// display otherwise.
pub open spec fn monitor_or_fallback(found: Option<MonitorInfo>) -> MonitorInfo {
    match found {
        Some(m) => m,
        None => fallback_monitor(),
    }
}

/// Origin of the floating button: its bottom-right corner sits one margin
/// inside the bottom-right corner of the work area.
pub open spec fn fab_origin(m: MonitorInfo) -> PhysicalPosition {
    let inset = physical_from_logical(FAB_SIZE as int, m.scale())
        + physical_from_logical(EDGE_MARGIN as int, m.scale());
    PhysicalPosition {
        x: clamp_to_i32(m.work_x + m.work_w - inset) as i32,
        y: clamp_to_i32(m.work_y + m.work_h - inset) as i32,
    }
}

/// Size of the floating button: a fixed square.
pub open spec fn fab_extent() -> LogicalSize {
    LogicalSize { width: FAB_SIZE, height: FAB_SIZE }
}

/// Width of the overlay in device pixels: a fixed share of the work area.
pub open spec fn overlay_pixel_width(m: MonitorInfo) -> int {
    m.work_w * OVERLAY_WIDTH_PERCENT / 100
}

/// Origin of the overlay: centred horizontally, flush with the top edge of
/// the work area.
pub open spec fn overlay_origin(m: MonitorInfo) -> PhysicalPosition {
    PhysicalPosition {
        x: clamp_to_i32(m.work_x + (m.work_w - overlay_pixel_width(m)) / 2) as i32,
        y: m.work_y,
    }
}

/// Size of the overlay: its pixel width expressed in logical points, and a
/// fixed height.
pub open spec fn overlay_extent(m: MonitorInfo) -> LogicalSize {
    LogicalSize {
        width: clamp_to_u32(logical_from_physical(overlay_pixel_width(m), m.scale())) as u32,
        height: OVERLAY_HEIGHT,
    }
}

impl MonitorInfo {
    /// The scale factor used for layout, in thousandths. No display has a
    /// scale of zero; a record that says so is read as scale 1.0.
    pub open spec fn scale(self) -> int {
        if self.scale_milli == 0 {
            1000
        } else {
            self.scale_milli as int
        }
    }

    /// The display assumed when none can be queried.
    pub fn fallback() -> (m: MonitorInfo)
        ensures
            m == fallback_monitor(),
    {
        MonitorInfo {
            work_x: 0,
            work_y: 0,
            work_w: FALLBACK_WIDTH,
            work_h: FALLBACK_HEIGHT,
            scale_milli: UNIT_SCALE,
        }
    }

    /// `found` where the host knew a monitor, the fallback display otherwise.
    pub fn or_fallback(found: Option<MonitorInfo>) -> (m: MonitorInfo)
        ensures
            m == monitor_or_fallback(found),
    {
        match found {
            Some(m) => m,
            None => MonitorInfo::fallback(),
        }
    }

    /// The scale factor used for layout, in thousandths.
    pub fn layout_scale(&self) -> (s: u32)
        ensures
            s == self.scale(),
            s > 0,
    {
        if self.scale_milli == 0 {
            UNIT_SCALE
        } else {
            self.scale_milli
        }
    }
}

/// Converts logical points to device pixels at the given scale.
pub fn to_physical(points: u32, scale_milli: u32) -> (pixels: u64)
    ensures
        pixels == physical_from_logical(points as int, scale_milli as int),
{
    assert(points * scale_milli <= 0xffff_ffff * 0xffff_ffff) by (nonlinear_arith)
        requires
            points <= 0xffff_ffff,
            scale_milli <= 0xffff_ffff,
    ;
    let product: u64 = (points as u64) * (scale_milli as u64);
    (product + 500) / 1000
}

/// Converts device pixels to whole logical points at the given scale.
fn to_logical(pixels: u32, scale_milli: u32) -> (points: u64)
    requires
        scale_milli > 0,
    ensures
        points == logical_from_physical(pixels as int, scale_milli as int),
{
    let scaled: u64 = (pixels as u64) * 1000;
    scaled / (scale_milli as u64)
}

/// Narrows a coordinate to `i32`, stopping at the type's bounds.
fn saturate_i32(v: i128) -> (r: i32)
    ensures
        r == clamp_to_i32(v as int),
{
    if v < i32::MIN as i128 {
        i32::MIN
    } else if v > i32::MAX as i128 {
        i32::MAX
    } else {
        v as i32
    }
}

/// Narrows a length to `u32`, stopping at the type's upper bound.
fn saturate_u32(v: u64) -> (r: u32)
    ensures
        r == clamp_to_u32(v as int),
{
    if v > u32::MAX as u64 {
        u32::MAX
    } else {
        v as u32
    }
}

/// Where the floating button goes on the given monitor.
pub fn fab_position(m: &MonitorInfo) -> (p: PhysicalPosition)
    ensures
        p == fab_origin(*m),
{
    let scale: u32 = m.layout_scale();
    let inset: u64 = to_physical(FAB_SIZE, scale) + to_physical(EDGE_MARGIN, scale);
    let right: i128 = m.work_x as i128 + m.work_w as i128;
    let bottom: i128 = m.work_y as i128 + m.work_h as i128;
    PhysicalPosition {
        x: saturate_i32(right - inset as i128),
        y: saturate_i32(bottom - inset as i128),
    }
}

/// The size at which the floating button is requested.
pub fn fab_size() -> (s: LogicalSize)
    ensures
        s == fab_extent(),
{
    LogicalSize { width: FAB_SIZE, height: FAB_SIZE }
}

/// Width of the overlay on the given monitor, in device pixels.
pub fn overlay_width(m: &MonitorInfo) -> (w: u32)
    ensures
        w == overlay_pixel_width(*m),
        w <= m.work_w,
{
    let share: u64 = (m.work_w as u64) * 40 / 100;
    share as u32
}

/// Where the overlay goes on the given monitor.
pub fn overlay_position(m: &MonitorInfo) -> (p: PhysicalPosition)
    ensures
        p == overlay_origin(*m),
{
    let share: u64 = overlay_width(m) as u64;
    let slack: u64 = (m.work_w as u64 - share) / 2;
    PhysicalPosition { x: saturate_i32(m.work_x as i128 + slack as i128), y: m.work_y }
}

/// The size at which the overlay is requested on the given monitor.
pub fn overlay_size(m: &MonitorInfo) -> (s: LogicalSize)
    ensures
        s == overlay_extent(*m),
{
    let points: u64 = to_logical(overlay_width(m), m.layout_scale());
    LogicalSize { width: saturate_u32(points), height: OVERLAY_HEIGHT }
}

} // verus!
