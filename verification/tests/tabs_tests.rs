use claw_core::errors::TabError;
use claw_core::geometry::{ContentBounds, PhysRect, WindowMetrics};
use claw_core::tabs::{
    close_tab, create_tab, create_tab_commit, get_active_tab, hide_all_tabs, list_tabs,
    navigate_tab, reposition_webviews, run_js_in_tab, set_content_bounds, switch_tab, Platform,
    SurfaceCmd, TabState,
};

fn metrics() -> WindowMetrics {
    WindowMetrics { width_px: 1000, height_px: 800, scale_milli: 1000 }
}

const SENTINEL: PhysRect = PhysRect { x: -10000, y: -10000, width: 0, height: 0 };

/// Opens a tab through both stages, as the host layer would.
fn open_tab(state: &mut TabState, url: &str) -> String {
    let m = metrics();
    let (plan, _cmds) = create_tab(state, url, Some(&m), Platform::Other, false).unwrap();
    create_tab_commit(state, plan)
}

/// Every non-active tab must sit at the off-screen sentinel, hidden.
fn assert_inactive_parked(state: &TabState) {
    let active = state.active_tab.clone();
    let mut active_seen = 0;
    for t in state.tabs.iter() {
        if active.as_deref() == Some(t.id.as_str()) {
            active_seen += 1;
        } else {
            assert_eq!(t.rect, SENTINEL);
            assert!(!t.visible);
        }
    }
    if active.is_some() {
        assert_eq!(active_seen, 1);
    }
}

#[test]
fn create_makes_new_tab_the_single_active_one() {
    let mut s = TabState::new();
    let id = open_tab(&mut s, "https://example.com/");
    assert_eq!(s.active_tab.as_deref(), Some(id.as_str()));
    let infos = list_tabs(&s);
    assert_eq!(infos.len(), 1);
    assert_eq!(infos[0].id, id);
    assert_eq!(infos[0].title, "New Tab");
    assert_eq!(infos[0].url, "https://example.com/");
    assert_inactive_parked(&s);
}

#[test]
fn create_blank_stores_canonical_token() {
    let mut s = TabState::new();
    let id = open_tab(&mut s, "");
    let infos = list_tabs(&s);
    assert_eq!(infos[0].url, "about:blank");
    let id2 = open_tab(&mut s, "about:blank");
    assert_ne!(id, id2);
    let infos = list_tabs(&s);
    assert!(infos.iter().all(|t| t.url == "about:blank"));
}

#[test]
fn create_plan_carries_placement_and_target() {
    let mut s = TabState::new();
    let m = metrics();
    let (plan, cmds) = create_tab(&mut s, "https://example.com/", Some(&m), Platform::MacOs, false)
        .unwrap();
    assert!(cmds.is_empty());
    assert_eq!(plan.rect, PhysRect { x: 520, y: 56, width: 480, height: 744 });
    assert_eq!(plan.external_url.as_deref(), Some("https://example.com/"));
    assert_eq!(plan.stored_url, "https://example.com/");
    assert_eq!(plan.label, format!("tab-{}", plan.id));
    assert_eq!(plan.id.len(), 36);
    assert!(uuid::Uuid::parse_str(&plan.id).is_ok());
    assert!(plan.user_agent.unwrap().contains("Macintosh"));
    assert_eq!(plan.scripts.len(), 1);
}

#[test]
fn create_rejects_invalid_url() {
    let mut s = TabState::new();
    let m = metrics();
    let r = create_tab(&mut s, "not a url", Some(&m), Platform::Other, false);
    assert!(matches!(r, Err(TabError::InvalidUrl)));
    assert!(list_tabs(&s).is_empty());
}

#[test]
fn create_needs_the_window() {
    let mut s = TabState::new();
    let r = create_tab(&mut s, "https://example.com/", None, Platform::Other, false);
    assert!(matches!(r, Err(TabError::WindowMissing)));
}

#[test]
fn create_parks_every_existing_surface() {
    let mut s = TabState::new();
    let first = open_tab(&mut s, "https://one.example/");
    let m = metrics();
    let (plan, cmds) = create_tab(&mut s, "https://two.example/", Some(&m), Platform::Other, false)
        .unwrap();
    assert_eq!(cmds.len(), 1);
    assert!(matches!(&cmds[0], SurfaceCmd::Park { id } if *id == first));
    let second = create_tab_commit(&mut s, plan);
    assert_eq!(s.active_tab.as_deref(), Some(second.as_str()));
    assert_inactive_parked(&s);
}

#[test]
fn switch_unknown_fails_and_mutates_nothing() {
    let mut s = TabState::new();
    let id = open_tab(&mut s, "https://example.com/");
    let before_active = s.active_tab.clone();
    let m = metrics();
    let r = switch_tab(&mut s, "no-such-id", Some(&m));
    assert!(matches!(r, Err(TabError::NotFound)));
    assert_eq!(s.active_tab, before_active);
    assert_eq!(list_tabs(&s).len(), 1);
    assert_eq!(list_tabs(&s)[0].id, id);
}

#[test]
fn switch_parks_others_and_places_target() {
    let mut s = TabState::new();
    let a = open_tab(&mut s, "https://one.example/");
    let b = open_tab(&mut s, "https://two.example/");
    let m = metrics();
    let cmds = switch_tab(&mut s, a.as_str(), Some(&m)).unwrap();
    assert_eq!(s.active_tab.as_deref(), Some(a.as_str()));
    assert_inactive_parked(&s);
    // parks for the other tab first, then place, show, focus of the target
    assert!(matches!(&cmds[0], SurfaceCmd::Park { id } if *id == b));
    assert!(
        matches!(&cmds[1], SurfaceCmd::Place { id, rect } if *id == a
            && *rect == PhysRect { x: 520, y: 56, width: 480, height: 744 })
    );
    assert!(matches!(&cmds[2], SurfaceCmd::Show { id } if *id == a));
    assert!(matches!(&cmds[3], SurfaceCmd::Focus { id } if *id == a));
    assert_eq!(cmds.len(), 4);
}

#[test]
fn close_active_elects_a_remaining_tab() {
    let mut s = TabState::new();
    let _a = open_tab(&mut s, "https://one.example/");
    let b = open_tab(&mut s, "https://two.example/");
    let m = metrics();
    let cmds = close_tab(&mut s, b.as_str(), Some(&m)).unwrap();
    // the active tab is always set while tabs remain
    let active = s.active_tab.clone().expect("a remaining tab must be active");
    assert!(list_tabs(&s).iter().any(|t| t.id == active));
    assert_eq!(list_tabs(&s).len(), 1);
    assert!(matches!(&cmds[0], SurfaceCmd::Destroy { id } if *id == b));
    assert!(matches!(&cmds[1], SurfaceCmd::Place { .. }));
    assert!(matches!(&cmds[2], SurfaceCmd::Show { .. }));
    assert!(matches!(&cmds[3], SurfaceCmd::Focus { .. }));
    assert_inactive_parked(&s);
}

#[test]
fn close_last_tab_leaves_no_active_tab() {
    let mut s = TabState::new();
    let id = open_tab(&mut s, "https://example.com/");
    let m = metrics();
    let cmds = close_tab(&mut s, id.as_str(), Some(&m)).unwrap();
    assert_eq!(cmds.len(), 1);
    assert!(matches!(&cmds[0], SurfaceCmd::Destroy { id: d } if *d == id));
    assert!(s.active_tab.is_none());
    assert!(list_tabs(&s).is_empty());
}

#[test]
fn close_inactive_keeps_active_tab() {
    let mut s = TabState::new();
    let a = open_tab(&mut s, "https://one.example/");
    let b = open_tab(&mut s, "https://two.example/");
    let m = metrics();
    close_tab(&mut s, a.as_str(), Some(&m)).unwrap();
    assert_eq!(s.active_tab.as_deref(), Some(b.as_str()));
    assert_inactive_parked(&s);
}

#[test]
fn close_unknown_fails_with_not_found() {
    let mut s = TabState::new();
    open_tab(&mut s, "https://example.com/");
    let m = metrics();
    let r = close_tab(&mut s, "no-such-id", Some(&m));
    assert!(matches!(r, Err(TabError::NotFound)));
    assert_eq!(list_tabs(&s).len(), 1);
}

#[test]
fn navigate_unknown_fails_and_mutates_nothing() {
    let mut s = TabState::new();
    open_tab(&mut s, "https://example.com/");
    let urls_before: Vec<String> = list_tabs(&s).into_iter().map(|t| t.url).collect();
    let r = navigate_tab(&mut s, "no-such-id", "https://other.example/");
    assert!(matches!(r, Err(TabError::NotFound)));
    let urls_after: Vec<String> = list_tabs(&s).into_iter().map(|t| t.url).collect();
    assert_eq!(urls_before, urls_after);
}

#[test]
fn navigate_updates_url_and_issues_command() {
    let mut s = TabState::new();
    let id = open_tab(&mut s, "https://example.com/");
    let cmds = navigate_tab(&mut s, id.as_str(), "https://other.example/page").unwrap();
    assert_eq!(cmds.len(), 1);
    assert!(
        matches!(&cmds[0], SurfaceCmd::Navigate { id: i, url } if *i == id
            && url == "https://other.example/page")
    );
    assert_eq!(list_tabs(&s)[0].url, "https://other.example/page");
}

#[test]
fn navigate_invalid_url_records_intent_but_fails() {
    let mut s = TabState::new();
    let id = open_tab(&mut s, "https://example.com/");
    let r = navigate_tab(&mut s, id.as_str(), "not a url");
    assert!(matches!(r, Err(TabError::InvalidUrl)));
    assert_eq!(list_tabs(&s)[0].url, "not a url");
}

#[test]
fn run_js_unknown_fails_with_not_found() {
    let mut s = TabState::new();
    open_tab(&mut s, "https://example.com/");
    let r = run_js_in_tab(&s, "no-such-id", "1 + 1");
    assert!(matches!(r, Err(TabError::NotFound)));
}

#[test]
fn run_js_issues_eval_command() {
    let mut s = TabState::new();
    let id = open_tab(&mut s, "https://example.com/");
    let cmds = run_js_in_tab(&s, id.as_str(), "document.title").unwrap();
    assert_eq!(cmds.len(), 1);
    assert!(
        matches!(&cmds[0], SurfaceCmd::Eval { id: i, code } if *i == id
            && code == "document.title")
    );
}

#[test]
fn hide_all_parks_everything_without_touching_active() {
    let mut s = TabState::new();
    let _a = open_tab(&mut s, "https://one.example/");
    let b = open_tab(&mut s, "https://two.example/");
    let cmds = hide_all_tabs(&mut s);
    assert_eq!(cmds.len(), 2);
    assert!(cmds.iter().all(|c| matches!(c, SurfaceCmd::Park { .. })));
    assert_eq!(s.active_tab.as_deref(), Some(b.as_str()));
    for t in s.tabs.iter() {
        assert_eq!(t.rect, SENTINEL);
        assert!(!t.visible);
    }
}

#[test]
fn reposition_without_tabs_does_nothing() {
    let mut s = TabState::new();
    let m = metrics();
    let cmds = reposition_webviews(&mut s, Some(&m)).unwrap();
    assert!(cmds.is_empty());
}

#[test]
fn reposition_needs_window_only_when_a_tab_is_active() {
    let mut s = TabState::new();
    assert!(reposition_webviews(&mut s, None).is_ok());
    open_tab(&mut s, "https://example.com/");
    let r = reposition_webviews(&mut s, None);
    assert!(matches!(r, Err(TabError::WindowMissing)));
}

#[test]
fn report_bounds_latches_offset_and_places_active() {
    let mut s = TabState::new();
    let id = open_tab(&mut s, "https://example.com/");
    let m = metrics();
    let b = ContentBounds { left: 500, top: 60, width: 480, height: 700 };
    let cmds = set_content_bounds(&mut s, b, Some(&m)).unwrap();
    assert_eq!(s.chrome_y_offset, 40);
    assert_eq!(cmds.len(), 1);
    let expected = PhysRect { x: 500, y: 100, width: 500, height: 700 };
    assert!(
        matches!(&cmds[0], SurfaceCmd::Place { id: i, rect } if *i == id && *rect == expected)
    );
}

#[test]
fn report_bounds_twice_resolves_identical_placement() {
    let mut s = TabState::new();
    open_tab(&mut s, "https://example.com/");
    let m = metrics();
    let b = ContentBounds { left: 500, top: 60, width: 480, height: 700 };
    let first = set_content_bounds(&mut s, b, Some(&m)).unwrap();
    let second = set_content_bounds(&mut s, b, Some(&m)).unwrap();
    let rect_of = |cmds: &Vec<SurfaceCmd>| match &cmds[0] {
        SurfaceCmd::Place { rect, .. } => *rect,
        other => panic!("expected a place command, got {:?}", other),
    };
    assert_eq!(rect_of(&first), rect_of(&second));
}

#[test]
fn offset_latched_across_resize() {
    let mut s = TabState::new();
    let id = open_tab(&mut s, "https://example.com/");
    let m = metrics();
    let b = ContentBounds { left: 500, top: 60, width: 480, height: 700 };
    set_content_bounds(&mut s, b, Some(&m)).unwrap();
    assert_eq!(s.chrome_y_offset, 40);
    // a window resize alone must not change the latched offset
    let wider = WindowMetrics { width_px: 1400, height_px: 800, scale_milli: 1000 };
    let cmds = reposition_webviews(&mut s, Some(&wider)).unwrap();
    assert_eq!(s.chrome_y_offset, 40);
    let expected = PhysRect { x: 500, y: 100, width: 900, height: 700 };
    assert!(
        matches!(&cmds[0], SurfaceCmd::Place { id: i, rect } if *i == id && *rect == expected)
    );
    // only a second report may change the offset
    let b2 = ContentBounds { left: 500, top: 60, width: 480, height: 720 };
    set_content_bounds(&mut s, b2, Some(&wider)).unwrap();
    assert_eq!(s.chrome_y_offset, 20);
}

#[test]
fn get_active_tab_mirrors_state() {
    let mut s = TabState::new();
    assert!(get_active_tab(&s).is_none());
    let id = open_tab(&mut s, "https://example.com/");
    assert_eq!(get_active_tab(&s).as_deref(), Some(id.as_str()));
}

#[test]
fn every_operation_keeps_one_surface_placed_at_most() {
    let mut s = TabState::new();
    let m = metrics();
    let a = open_tab(&mut s, "https://one.example/");
    assert_inactive_parked(&s);
    let b = open_tab(&mut s, "https://two.example/");
    assert_inactive_parked(&s);
    let c = open_tab(&mut s, "https://three.example/");
    assert_inactive_parked(&s);
    switch_tab(&mut s, a.as_str(), Some(&m)).unwrap();
    assert_inactive_parked(&s);
    close_tab(&mut s, a.as_str(), Some(&m)).unwrap();
    assert_inactive_parked(&s);
    switch_tab(&mut s, c.as_str(), Some(&m)).unwrap();
    assert_inactive_parked(&s);
    close_tab(&mut s, b.as_str(), Some(&m)).unwrap();
    assert_inactive_parked(&s);
    close_tab(&mut s, c.as_str(), Some(&m)).unwrap();
    assert!(s.active_tab.is_none());
}

#[test]
fn error_messages_are_descriptive() {
    assert_eq!(TabError::NotFound.message(), "Tab not found");
    assert_eq!(TabError::InvalidUrl.message(), "Invalid URL");
    assert_eq!(TabError::WindowMissing.message(), "Main window not found");
    assert_eq!(TabError::SurfaceCreateFailed.message(), "Failed to create webview");
    assert_eq!(TabError::SurfaceOpFailed.message(), "Webview operation failed");
    assert_eq!(TabError::LockUnavailable.message(), "State lock unavailable");
    assert_eq!(TabError::InvalidJson.message(), "Invalid JSON from sidecar");
}

#[test]
fn create_with_capture_injects_both_scripts() {
    let mut s = TabState::new();
    let m = metrics();
    let (plan, _) = create_tab(&mut s, "", Some(&m), Platform::Other, true).unwrap();
    assert_eq!(plan.scripts.len(), 2);
    assert!(plan.scripts[0].contains("claw-debug"));
    assert!(plan.scripts[1].contains("tab-open-request"));
    assert!(plan.external_url.is_none());
    assert_eq!(plan.stored_url, "about:blank");
    assert!(plan.user_agent.is_none());
}

#[test]
fn switch_without_window_still_shows_and_focuses() {
    let mut s = TabState::new();
    let a = open_tab(&mut s, "https://one.example/");
    let _b = open_tab(&mut s, "https://two.example/");
    let cmds = switch_tab(&mut s, a.as_str(), None).unwrap();
    assert_eq!(s.active_tab.as_deref(), Some(a.as_str()));
    // park of the other tab, then show and focus; no placement applied
    assert_eq!(cmds.len(), 3);
    assert!(matches!(&cmds[0], SurfaceCmd::Park { .. }));
    assert!(matches!(&cmds[1], SurfaceCmd::Show { id } if *id == a));
    assert!(matches!(&cmds[2], SurfaceCmd::Focus { id } if *id == a));
    assert_inactive_parked(&s);
}

#[test]
fn close_active_without_window_elects_without_placing() {
    let mut s = TabState::new();
    let _a = open_tab(&mut s, "https://one.example/");
    let b = open_tab(&mut s, "https://two.example/");
    let cmds = close_tab(&mut s, b.as_str(), None).unwrap();
    assert!(s.active_tab.is_some());
    assert_eq!(cmds.len(), 3);
    assert!(matches!(&cmds[0], SurfaceCmd::Destroy { id } if *id == b));
    assert!(matches!(&cmds[1], SurfaceCmd::Show { .. }));
    assert!(matches!(&cmds[2], SurfaceCmd::Focus { .. }));
}
