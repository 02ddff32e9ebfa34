use claw_core::geometry::{
    axis_to_px, chrome_offset, offscreen_rect, resolve_content_rect, ContentBounds, PhysRect,
    WindowMetrics, MAX_LOGICAL_COORD, MAX_SCALE_MILLI, NAV_BAR_HEIGHT, SIDE_PANEL_WIDTH,
    TAB_LIST_WIDTH,
};

fn metrics(w: u32, h: u32, scale_milli: u32) -> WindowMetrics {
    WindowMetrics { width_px: w, height_px: h, scale_milli }
}

#[test]
fn fallback_layout_scenario() {
    // window interior 1000x800 at scale 1.0, no bounds ever reported
    let m = metrics(1000, 800, 1000);
    let r = resolve_content_rect(&None, 0, &m);
    assert_eq!(SIDE_PANEL_WIDTH + TAB_LIST_WIDTH, 520);
    assert_eq!(NAV_BAR_HEIGHT, 56);
    assert_eq!(r, PhysRect { x: 520, y: 56, width: 480, height: 744 });
}

#[test]
fn reported_bounds_scenario() {
    // viewport_h = 60 + 700 = 760, window interior height 800 logical
    let m = metrics(1000, 800, 1000);
    let b = ContentBounds { left: 500, top: 60, width: 480, height: 700 };
    let k = chrome_offset(&b, &m);
    assert_eq!(k, 40);
    let r = resolve_content_rect(&Some(b), k, &m);
    assert_eq!(r, PhysRect { x: 500, y: 100, width: 500, height: 700 });
}

#[test]
fn chrome_offset_never_negative() {
    // viewport taller than the window interior: offset floors at zero
    let m = metrics(1000, 600, 1000);
    let b = ContentBounds { left: 0, top: 0, width: 600, height: 700 };
    assert_eq!(chrome_offset(&b, &m), 0);
}

#[test]
fn axis_rounds_half_away_from_zero() {
    assert_eq!(axis_to_px(3, 1500), 5); // 4.5 -> 5
    assert_eq!(axis_to_px(1, 1499), 1); // 1.499 -> 1
    assert_eq!(axis_to_px(1, 1500), 2); // 1.5 -> 2
    assert_eq!(axis_to_px(7, 2000), 14);
}

#[test]
fn axis_clamps_negative_to_zero() {
    assert_eq!(axis_to_px(-5, 1000), 0);
    assert_eq!(axis_to_px(-1_000_000_000, 1000), 0);
}

#[test]
fn negative_origin_shrinks_nothing() {
    // a negative reported left clamps to zero, so the full width remains
    let m = metrics(800, 600, 1000);
    let b = ContentBounds { left: -50, top: -10, width: 10, height: 10 };
    let r = resolve_content_rect(&Some(b), 0, &m);
    assert_eq!(r, PhysRect { x: 0, y: 0, width: 800, height: 600 });
}

#[test]
fn origin_beyond_window_floors_size_at_zero() {
    let m = metrics(400, 300, 1000);
    let b = ContentBounds { left: 500, top: 400, width: 10, height: 10 };
    let r = resolve_content_rect(&Some(b), 0, &m);
    assert_eq!(r.width, 0);
    assert_eq!(r.height, 0);
}

#[test]
fn scale_two_doubles_positions() {
    let m = metrics(2000, 1600, 2000);
    let r = resolve_content_rect(&None, 0, &m);
    assert_eq!(r, PhysRect { x: 1040, y: 112, width: 960, height: 1488 });
}

#[test]
fn offscreen_sentinel_is_fixed() {
    let r = offscreen_rect();
    assert_eq!(r, PhysRect { x: -10000, y: -10000, width: 0, height: 0 });
}

#[test]
fn well_formedness_checks() {
    assert!(ContentBounds { left: 0, top: 0, width: 0, height: 0 }.is_well_formed());
    assert!(!ContentBounds { left: MAX_LOGICAL_COORD + 1, top: 0, width: 0, height: 0 }
        .is_well_formed());
    assert!(metrics(1, 1, 1000).is_well_formed());
    assert!(!metrics(1, 1, 0).is_well_formed());
    assert!(!metrics(1, 1, MAX_SCALE_MILLI + 1).is_well_formed());
}
