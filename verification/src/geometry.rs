//! Coordinate resolution for content surfaces.
//!
//! The host window reports its interior size in physical pixels together
//! with a display scale factor, while the UI layer reports the content
//! area in logical units.  This module translates between the two systems
//! and produces the exact physical-pixel placement of a surface.
//!
//! The scale factor is carried in thousandths (`scale_milli`), so a scale
//! of 1.0 is 1000 and a scale of 1.5 is 1500.  All arithmetic is integer
//! arithmetic; rounding is round-half-away-from-zero, matching the usual
//! rounding of a product of a logical coordinate and a scale factor.

use vstd::prelude::*;

verus! {

/// Logical-pixel width of the fixed side panel, used by the fallback
/// layout before the UI has reported its content bounds.
pub const SIDE_PANEL_WIDTH: i64 = 320;

/// Logical-pixel width of the fixed tab list, part of the fallback layout.
pub const TAB_LIST_WIDTH: i64 = 200;

/// Logical-pixel height of the navigation bar, part of the fallback layout.
pub const NAV_BAR_HEIGHT: i64 = 56;

/// Largest magnitude accepted for a logical coordinate reported by the UI.
/// Keeps every product with a scale factor well inside `i64`.
pub const MAX_LOGICAL_COORD: i64 = 1_000_000_000;

/// Largest accepted scale factor, in thousandths (a scale of 1000.0).
pub const MAX_SCALE_MILLI: u32 = 1_000_000;

/// Upper bound on a stored chrome offset: no logical window height can
/// exceed `u32::MAX * 1000` (physical pixels at the smallest scale).
pub const MAX_CHROME_OFFSET: i64 = 5_000_000_000_000;

/// Largest logical value ever handed to the axis scaler: a coordinate
/// plus a chrome offset stays below this.
pub const MAX_SCALED_INPUT: i64 = 6_000_000_000_000;

/// X position of the off-screen sentinel placement.
pub const OFFSCREEN_X: i32 = -10000;

/// Y position of the off-screen sentinel placement.
pub const OFFSCREEN_Y: i32 = -10000;

/// Content-area rectangle in logical units, relative to the UI viewport
/// origin, as last reported by the chrome UI layer.
#[derive(Clone, Copy, PartialEq, Eq, Structural, Debug)]
pub struct ContentBounds {
    pub left: i64,
    pub top: i64,
    pub width: i64,
    pub height: i64,
}

impl ContentBounds {
    /// Every component is small enough for exact placement arithmetic.
    pub open spec fn wf(self) -> bool {
        &&& -MAX_LOGICAL_COORD <= self.left <= MAX_LOGICAL_COORD
        &&& -MAX_LOGICAL_COORD <= self.top <= MAX_LOGICAL_COORD
        &&& -MAX_LOGICAL_COORD <= self.width <= MAX_LOGICAL_COORD
        &&& -MAX_LOGICAL_COORD <= self.height <= MAX_LOGICAL_COORD
    }

    /// Runtime check of `wf`, for callers outside verified code.
    pub fn is_well_formed(&self) -> (r: bool)
        ensures
            r == self.wf(),
    {
        -MAX_LOGICAL_COORD <= self.left && self.left <= MAX_LOGICAL_COORD
            && -MAX_LOGICAL_COORD <= self.top && self.top <= MAX_LOGICAL_COORD
            && -MAX_LOGICAL_COORD <= self.width && self.width <= MAX_LOGICAL_COORD
            && -MAX_LOGICAL_COORD <= self.height && self.height <= MAX_LOGICAL_COORD
    }
}

/// Live measurement of the host window: interior size in physical pixels
/// and the display scale factor in thousandths.
#[derive(Clone, Copy, PartialEq, Eq, Structural, Debug)]
pub struct WindowMetrics {
    pub width_px: u32,
    pub height_px: u32,
    pub scale_milli: u32,
}

impl WindowMetrics {
    /// A scale factor is positive and bounded.
    pub open spec fn wf(self) -> bool {
        1 <= self.scale_milli <= MAX_SCALE_MILLI
    }

    /// Runtime check of `wf`, for callers outside verified code.
    pub fn is_well_formed(&self) -> (r: bool)
        ensures
            r == self.wf(),
    {
        1 <= self.scale_milli && self.scale_milli <= MAX_SCALE_MILLI
    }
}

/// A physical-pixel placement: position of the top-left corner and size.
#[derive(Clone, Copy, PartialEq, Eq, Structural, Debug)]
pub struct PhysRect {
    pub x: i32,
    pub y: i32,
    pub width: u32,
    pub height: u32,
}

/// The off-screen, zero-size placement that fully disables an inactive
/// surface's visibility and input interception.
pub open spec fn sentinel_rect() -> PhysRect {
    PhysRect { x: OFFSCREEN_X, y: OFFSCREEN_Y, width: 0, height: 0 }
}

/// Builds the off-screen sentinel placement.
pub fn offscreen_rect() -> (r: PhysRect)
    ensures
        r == sentinel_rect(),
{
    PhysRect { x: OFFSCREEN_X, y: OFFSCREEN_Y, width: 0, height: 0 }
}

/// Rounding of `p` thousandths to a whole unit, half away from zero.
pub open spec fn round_milli(p: int) -> int {
    if p >= 0 {
        (p + 500) / 1000
    } else {
        -((-p + 500) / 1000)
    }
}

/// A physical axis value: the logical value `l` scaled by `s` thousandths,
/// rounded, then clamped to the representable non-negative pixel range.
pub open spec fn spec_axis_px(l: int, s: int) -> int {
    let r = round_milli(l * s);
    if r < 0 {
        0
    } else if r > i32::MAX {
        i32::MAX as int
    } else {
        r
    }
}

/// Scales one logical axis value to physical pixels.
pub fn axis_to_px(l: i64, s: u32) -> (r: i32)
    requires
        -MAX_SCALED_INPUT <= l <= MAX_SCALED_INPUT,
        1 <= s <= MAX_SCALE_MILLI,
    ensures
        r as int == spec_axis_px(l as int, s as int),
        r >= 0,
{
    broadcast use vstd::arithmetic::div_mod::group_div_basics;

    if l <= 0 {
        proof {
            assert(l * s <= 0) by (nonlinear_arith)
                requires l <= 0 && s >= 1;
            if l as int * s < 0 {
                let p = l as int * s;
                assert(-p + 500 >= 0);
                assert((-p + 500) / 1000 >= 0);
            }
        }
        0
    } else {
        proof {
            assert(0 <= l * s <= MAX_SCALED_INPUT * MAX_SCALE_MILLI) by (nonlinear_arith)
                requires 0 <= l <= MAX_SCALED_INPUT && 1 <= s <= MAX_SCALE_MILLI;
        }
        let p: i64 = l * (s as i64);
        let q: u64 = ((p as u64) + 500) / 1000;
        if q > (i32::MAX as u64) {
            i32::MAX
        } else {
            q as i32
        }
    }
}

/// The logical coordinates of the content area's top-left corner:
/// the last reported bounds if present, else the fixed fallback layout.
pub open spec fn spec_logical_origin(cb: Option<ContentBounds>) -> (int, int) {
    match cb {
        Some(b) => (b.left as int, b.top as int),
        None => ((SIDE_PANEL_WIDTH + TAB_LIST_WIDTH) as int, NAV_BAR_HEIGHT as int),
    }
}

/// The resolved physical placement of the active surface.
///
/// Left and top come from the logical origin (plus the latched chrome
/// offset on the vertical axis), scaled and clamped to be non-negative.
/// Width and height are derived from the live window interior so that a
/// resize is reflected even while the reported bounds are stale.
pub open spec fn spec_resolved_rect(cb: Option<ContentBounds>, y_off: int, m: WindowMetrics) -> PhysRect {
    let origin = spec_logical_origin(cb);
    let s = m.scale_milli as int;
    let x = spec_axis_px(origin.0, s);
    let y = spec_axis_px(origin.1 + y_off, s);
    let w = if x < m.width_px as int { m.width_px as int - x } else { 0 };
    let h = if y < m.height_px as int { m.height_px as int - y } else { 0 };
    PhysRect { x: x as i32, y: y as i32, width: w as u32, height: h as u32 }
}

/// Resolves the physical placement of the active surface from the last
/// reported content bounds, the latched chrome offset and the live
/// window metrics.
pub fn resolve_content_rect(cb: &Option<ContentBounds>, y_off: i64, m: &WindowMetrics) -> (r: PhysRect)
    requires
        m.wf(),
        cb matches Some(b) ==> b.wf(),
        0 <= y_off <= MAX_CHROME_OFFSET,
    ensures
        r == spec_resolved_rect(*cb, y_off as int, *m),
{
    let (l, t): (i64, i64) = match cb {
        Some(b) => (b.left, b.top),
        None => (SIDE_PANEL_WIDTH + TAB_LIST_WIDTH, NAV_BAR_HEIGHT),
    };
    let x: i32 = axis_to_px(l, m.scale_milli);
    let y: i32 = axis_to_px(t + y_off, m.scale_milli);
    let w: u32 = if (x as u32) < m.width_px { m.width_px - x as u32 } else { 0 };
    let h: u32 = if (y as u32) < m.height_px { m.height_px - y as u32 } else { 0 };
    PhysRect { x, y, width: w, height: h }
}

/// The logical height of the window interior: physical height divided by
/// the scale factor, rounded to the nearest logical unit.
pub open spec fn spec_logical_height(m: WindowMetrics) -> int {
    (m.height_px as int * 1000 + m.scale_milli as int / 2) / (m.scale_milli as int)
}

/// The chrome offset latched from a bounds report: the gap between the
/// window's logical interior height and the UI viewport's visible height
/// (`top + height` of the report), floored at zero.
pub open spec fn spec_chrome_offset(b: ContentBounds, m: WindowMetrics) -> int {
    let vh = b.top as int + b.height as int;
    let lh = spec_logical_height(m);
    if lh - vh < 0 {
        0
    } else {
        lh - vh
    }
}

/// Computes the chrome offset for a bounds report under the given window
/// metrics.
pub fn chrome_offset(b: &ContentBounds, m: &WindowMetrics) -> (r: i64)
    requires
        b.wf(),
        m.wf(),
    ensures
        r as int == spec_chrome_offset(*b, *m),
        0 <= r <= MAX_CHROME_OFFSET,
{
    broadcast use vstd::arithmetic::div_mod::group_div_basics;

    let s: u64 = m.scale_milli as u64;
    let num: u64 = (m.height_px as u64) * 1000 + s / 2;
    let lh: u64 = num / s;
    assert(lh <= num);
    let vh: i64 = b.top + b.height;
    let diff: i64 = (lh as i64) - vh;
    if diff < 0 {
        0
    } else {
        diff
    }
}

} // verus!

