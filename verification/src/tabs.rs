//! The surface registry and tab lifecycle engine.
//!
//! A [`TabState`] is the single source of truth: the open tabs, which tab
//! is active, the last reported content bounds and the latched chrome
//! offset.  Each lifecycle operation updates the state and returns the
//! list of [`SurfaceCmd`] values the host layer must perform against the
//! native surfaces, in order.  The central invariant ([`TabState::inv`])
//! keeps every non-active surface parked at the off-screen sentinel with
//! zero size, so at most one surface ever sits inside the visible window.

use vstd::prelude::*;

use crate::errors::TabError;
use crate::geometry::{
    ContentBounds, PhysRect, WindowMetrics, MAX_CHROME_OFFSET, sentinel_rect, offscreen_rect,
    spec_resolved_rect, resolve_content_rect, spec_chrome_offset, chrome_offset,
};
use crate::text::str_eq;
use crate::ids::{fresh_tab_id, tab_label, spec_tab_label};
use crate::scripts::{debug_init_script, link_intercept_script, spec_debug_script, spec_link_script};
use crate::urls::{url_is_valid, is_blank_request, spec_blank_request, url_ok, ABOUT_BLANK};

verus! {

/// Snapshot of one tab handed to the UI layer.
#[derive(Clone, Debug)]
pub struct TabInfo {
    pub id: String,
    pub url: String,
    pub title: String,
}

/// One open tab: its record plus the placement last commanded for its
/// surface.  `rect`/`visible` mirror exactly what the host layer was told
/// to do with the native surface.
#[derive(Clone, Debug)]
pub struct Tab {
    pub id: String,
    pub url: String,
    pub title: String,
    pub rect: PhysRect,
    pub visible: bool,
}

/// The registry: single source of truth for the lifecycle engine.
pub struct TabState {
    pub tabs: Vec<Tab>,
    pub active_tab: Option<String>,
    pub content_bounds: Option<ContentBounds>,
    /// Gap in logical units between the window's interior height and the
    /// UI viewport's visible height.  Latched from the first bounds
    /// report and only overwritten by a later report.
    pub chrome_y_offset: i64,
}

/// An imperative command for the host layer to perform on a native
/// surface, identified by its tab id.
#[derive(Clone, Debug)]
pub enum SurfaceCmd {
    /// Move the surface to the off-screen sentinel with zero size and hide it.
    Park { id: String },
    /// Disable native auto-resizing and apply this exact placement.
    Place { id: String, rect: PhysRect },
    /// Show the surface.
    Show { id: String },
    /// Give the surface keyboard focus.
    Focus { id: String },
    /// Close and release the native surface.
    Destroy { id: String },
    /// Load the given URL in the surface.
    Navigate { id: String, url: String },
    /// Evaluate the given script in the surface, fire-and-forget.
    Eval { id: String, code: String },
}

/// The mathematical shape of a [`SurfaceCmd`].
#[verifier::ext_equal]
pub enum CmdSpec {
    Park(Seq<char>),
    Place(Seq<char>, PhysRect),
    Show(Seq<char>),
    Focus(Seq<char>),
    Destroy(Seq<char>),
    Navigate(Seq<char>, Seq<char>),
    Eval(Seq<char>, Seq<char>),
}

impl View for SurfaceCmd {
    type V = CmdSpec;

    open spec fn view(&self) -> CmdSpec {
        match self {
            SurfaceCmd::Park { id } => CmdSpec::Park(id@),
            SurfaceCmd::Place { id, rect } => CmdSpec::Place(id@, *rect),
            SurfaceCmd::Show { id } => CmdSpec::Show(id@),
            SurfaceCmd::Focus { id } => CmdSpec::Focus(id@),
            SurfaceCmd::Destroy { id } => CmdSpec::Destroy(id@),
            SurfaceCmd::Navigate { id, url } => CmdSpec::Navigate(id@, url@),
            SurfaceCmd::Eval { id, code } => CmdSpec::Eval(id@, code@),
        }
    }
}

/// The shapes of a command list.
pub open spec fn cmd_views(s: Seq<SurfaceCmd>) -> Seq<CmdSpec> {
    s.map_values(|c: SurfaceCmd| c@)
}

/// Whether some tab in the sequence carries this id.
pub open spec fn has_id(tabs: Seq<Tab>, id: Seq<char>) -> bool {
    exists|i: int| 0 <= i < tabs.len() && tabs[i].id@ == id
}

/// No two tabs share an id.
pub open spec fn distinct_ids(tabs: Seq<Tab>) -> bool {
    forall|i: int, j: int|
        0 <= i < tabs.len() && 0 <= j < tabs.len() && i != j
            ==> #[trigger] tabs[i].id@ != #[trigger] tabs[j].id@
}

/// A tab whose surface is parked: off-screen sentinel, zero size, hidden.
pub open spec fn tab_parked(t: Tab) -> bool {
    t.rect == sentinel_rect() && !t.visible
}

/// The same tab with its surface parked.
pub open spec fn spec_parked(t: Tab) -> Tab {
    Tab { id: t.id, url: t.url, title: t.title, rect: sentinel_rect(), visible: false }
}

/// The park commands for every tab in order, optionally skipping one id.
pub open spec fn park_cmds(tabs: Seq<Tab>, skip: Option<Seq<char>>) -> Seq<CmdSpec>
    decreases tabs.len(),
{
    if tabs.len() == 0 {
        Seq::empty()
    } else {
        let rest = park_cmds(tabs.drop_last(), skip);
        if skip matches Some(s) && tabs.last().id@ == s {
            rest
        } else {
            rest.push(CmdSpec::Park(tabs.last().id@))
        }
    }
}

proof fn lemma_park_cmds_take_step(tabs: Seq<Tab>, skip: Option<Seq<char>>, i: int)
    requires
        0 <= i < tabs.len(),
    ensures
        park_cmds(tabs.take(i + 1), skip) == if skip matches Some(s) && tabs[i].id@ == s {
            park_cmds(tabs.take(i), skip)
        } else {
            park_cmds(tabs.take(i), skip).push(CmdSpec::Park(tabs[i].id@))
        },
{
    assert(tabs.take(i + 1).drop_last() =~= tabs.take(i));
    assert(tabs.take(i + 1).last() == tabs[i]);
}

impl TabState {
    /// Whether the tab at index `i` is the active one.
    pub open spec fn tab_is_active(self, i: int) -> bool {
        self.active_tab matches Some(a) && self.tabs@[i].id@ == a@
    }

    /// The registry invariant.
    ///
    /// Ids are unique; the active id, if present, names an open tab;
    /// every non-active surface is parked at the off-screen sentinel and
    /// hidden (so at most one surface can sit inside the visible window);
    /// and the latched layout inputs are within arithmetic range.
    pub open spec fn inv(self) -> bool {
        &&& distinct_ids(self.tabs@)
        &&& (self.active_tab matches Some(a) ==> has_id(self.tabs@, a@))
        &&& (forall|i: int|
            0 <= i < self.tabs@.len() && !self.tab_is_active(i) ==> tab_parked(
                #[trigger] self.tabs@[i],
            ))
        &&& (self.tabs@.len() > 0 ==> self.active_tab is Some)
        &&& 0 <= self.chrome_y_offset <= MAX_CHROME_OFFSET
        &&& (self.content_bounds matches Some(b) ==> b.wf())
    }

    /// The placement currently resolved for this state under the given
    /// window metrics.
    pub open spec fn spec_resolved(self, m: WindowMetrics) -> PhysRect {
        spec_resolved_rect(self.content_bounds, self.chrome_y_offset as int, m)
    }

    /// A fresh registry: no tabs, no active tab, no reported bounds,
    /// zero chrome offset.
    pub fn new() -> (s: TabState)
        ensures
            s.tabs@.len() == 0,
            s.active_tab is None,
            s.content_bounds is None,
            s.chrome_y_offset == 0,
            s.inv(),
    {
        TabState {
            tabs: Vec::new(),
            active_tab: None,
            content_bounds: None,
            chrome_y_offset: 0,
        }
    }
}

/// A mutable borrow of the tab at index `i`.
fn tab_mut<'a>(tabs: &'a mut Vec<Tab>, i: usize) -> (t: &'a mut Tab)
    requires
        i < old(tabs).len(),
    ensures
        *t == old(tabs)@[i as int],
        final(tabs)@ == old(tabs)@.update(i as int, *final(t)),
{
    &mut tabs[i]
}

/// The index of the tab carrying `id`, if any.
fn find_tab(tabs: &Vec<Tab>, id: &str) -> (r: Option<usize>)
    ensures
        r matches Some(i) ==> i < tabs@.len() && tabs@[i as int].id@ == id@,
        r is None ==> !has_id(tabs@, id@),
{
    let mut i: usize = 0;
    while i < tabs.len()
        invariant
            i <= tabs@.len(),
            forall|j: int| 0 <= j < i ==> #[trigger] tabs@[j].id@ != id@,
        decreases tabs@.len() - i,
    {
        if str_eq(tabs[i].id.as_str(), id) {
            return Some(i);
        }
        i = i + 1;
    }
    None
}

/// Parks every surface and hides it, without touching the active tab.
/// Used when the chrome wants to show a non-browsing overlay.
pub fn hide_all_tabs(state: &mut TabState) -> (cmds: Vec<SurfaceCmd>)
    requires
        old(state).inv(),
    ensures
        final(state).inv(),
        final(state).active_tab == old(state).active_tab,
        final(state).content_bounds == old(state).content_bounds,
        final(state).chrome_y_offset == old(state).chrome_y_offset,
        final(state).tabs@.len() == old(state).tabs@.len(),
        forall|i: int|
            0 <= i < old(state).tabs@.len() ==> final(state).tabs@[i] == spec_parked(
                #[trigger] old(state).tabs@[i],
            ),
        cmd_views(cmds@) == park_cmds(old(state).tabs@, None::<Seq<char>>),
{
    let ghost tabs0 = state.tabs@;
    let ghost active0 = state.active_tab;
    let ghost cb0 = state.content_bounds;
    let ghost off0 = state.chrome_y_offset;
    let mut cmds: Vec<SurfaceCmd> = Vec::new();
    let mut i: usize = 0;
    proof {
        assert(tabs0.take(0) =~= Seq::<Tab>::empty());
        assert(cmd_views(cmds@) =~= park_cmds(tabs0.take(0), None::<Seq<char>>));
    }
    while i < state.tabs.len()
        invariant
            i <= state.tabs@.len(),
            state.tabs@.len() == tabs0.len(),
            state.active_tab == active0,
            state.content_bounds == cb0,
            state.chrome_y_offset == off0,
            forall|j: int| 0 <= j < i ==> state.tabs@[j] == spec_parked(#[trigger] tabs0[j]),
            forall|j: int| i <= j < tabs0.len() ==> state.tabs@[j] == #[trigger] tabs0[j],
            cmd_views(cmds@) == park_cmds(tabs0.take(i as int), None::<Seq<char>>),
        decreases tabs0.len() - i,
    {
        let ghost cmds_before = cmds@;
        let t = tab_mut(&mut state.tabs, i);
        let id_copy = t.id.clone();
        t.rect = offscreen_rect();
        t.visible = false;
        cmds.push(SurfaceCmd::Park { id: id_copy });
        proof {
            lemma_park_cmds_take_step(tabs0, None::<Seq<char>>, i as int);
            assert(cmd_views(cmds@) =~= cmd_views(cmds_before).push(
                CmdSpec::Park(tabs0[i as int].id@),
            ));
        }
        i = i + 1;
    }
    proof {
        assert(tabs0.take(tabs0.len() as int) =~= tabs0);
        assert forall|j: int| 0 <= j < state.tabs@.len() implies (#[trigger] state.tabs@[j]).id@
            == tabs0[j].id@ && tab_parked(state.tabs@[j]) by {
            assert(state.tabs@[j] == spec_parked(tabs0[j]));
        }
        assert forall|i: int, j: int|
            0 <= i < state.tabs@.len() && 0 <= j < state.tabs@.len() && i != j implies (
        #[trigger] state.tabs@[i].id@) != (#[trigger] state.tabs@[j].id@) by {
            assert(tabs0[i].id@ != tabs0[j].id@);
        }
        if active0 is Some {
            let a = active0->Some_0;
            assert(has_id(tabs0, a@));
            let w = choose|k: int| 0 <= k < tabs0.len() && tabs0[k].id@ == a@;
            assert(state.tabs@[w].id@ == a@);
        }
    }
    cmds
}

/// The same tab with a new placement, surface shown or hidden unchanged.
pub open spec fn spec_with_rect(t: Tab, r: PhysRect) -> Tab {
    Tab { id: t.id, url: t.url, title: t.title, rect: r, visible: t.visible }
}

/// The same tab placed at `r` and shown.
pub open spec fn spec_placed(t: Tab, r: PhysRect) -> Tab {
    Tab { id: t.id, url: t.url, title: t.title, rect: r, visible: true }
}

/// Switches to a tab: parks and hides every other surface, applies the
/// resolved placement to the target (when the window can be measured),
/// shows and focuses it, and makes it the active tab.
///
/// Fails with `NotFound`, mutating nothing, when the id is unknown.
pub fn switch_tab(state: &mut TabState, tab_id: &str, window: Option<&WindowMetrics>) -> (r:
    Result<Vec<SurfaceCmd>, TabError>)
    requires
        old(state).inv(),
        window matches Some(m) ==> m.wf(),
    ensures
        final(state).inv(),
        final(state).content_bounds == old(state).content_bounds,
        final(state).chrome_y_offset == old(state).chrome_y_offset,
        !has_id(old(state).tabs@, tab_id@) ==> (r matches Err(e) && e == TabError::NotFound
            && *final(state) == *old(state)),
        has_id(old(state).tabs@, tab_id@) ==> {
            &&& r is Ok
            &&& final(state).active_tab matches Some(a) && a@ == tab_id@
            &&& final(state).tabs@.len() == old(state).tabs@.len()
            &&& (forall|i: int|
                0 <= i < old(state).tabs@.len() && old(state).tabs@[i].id@ != tab_id@
                    ==> final(state).tabs@[i] == spec_parked(#[trigger] old(state).tabs@[i]))
            &&& (forall|i: int|
                0 <= i < old(state).tabs@.len() && old(state).tabs@[i].id@ == tab_id@
                    ==> final(state).tabs@[i] == spec_placed(
                    #[trigger] old(state).tabs@[i],
                    if window is Some {
                        old(state).spec_resolved(*window->Some_0)
                    } else {
                        old(state).tabs@[i].rect
                    },
                ))
            &&& cmd_views(r->Ok_0@) == park_cmds(old(state).tabs@, Some(tab_id@)) + (
            if window is Some {
                seq![CmdSpec::Place(tab_id@, old(state).spec_resolved(*window->Some_0))]
            } else {
                Seq::empty()
            }) + seq![CmdSpec::Show(tab_id@), CmdSpec::Focus(tab_id@)]
        },
{
    let idx: usize = match find_tab(&state.tabs, tab_id) {
        Some(i) => i,
        None => {
            return Err(TabError::NotFound);
        },
    };
    let ghost tabs0 = state.tabs@;
    let ghost cb0 = state.content_bounds;
    let ghost off0 = state.chrome_y_offset;
    let mut cmds: Vec<SurfaceCmd> = Vec::new();
    let mut i: usize = 0;
    proof {
        assert(tabs0.take(0) =~= Seq::<Tab>::empty());
        assert(cmd_views(cmds@) =~= park_cmds(tabs0.take(0), Some(tab_id@)));
    }
    while i < state.tabs.len()
        invariant
            i <= state.tabs@.len(),
            idx < tabs0.len(),
            tabs0[idx as int].id@ == tab_id@,
            distinct_ids(tabs0),
            state.tabs@.len() == tabs0.len(),
            state.active_tab == old(state).active_tab,
            state.content_bounds == cb0,
            state.chrome_y_offset == off0,
            forall|j: int|
                0 <= j < i && j != idx ==> state.tabs@[j] == spec_parked(#[trigger] tabs0[j]),
            forall|j: int|
                0 <= j < tabs0.len() && (i <= j || j == idx) ==> state.tabs@[j]
                    == #[trigger] tabs0[j],
            cmd_views(cmds@) == park_cmds(tabs0.take(i as int), Some(tab_id@)),
        decreases tabs0.len() - i,
    {
        proof {
            lemma_park_cmds_take_step(tabs0, Some(tab_id@), i as int);
        }
        if i != idx {
            let ghost cmds_before = cmds@;
            let t = tab_mut(&mut state.tabs, i);
            let id_copy = t.id.clone();
            t.rect = offscreen_rect();
            t.visible = false;
            cmds.push(SurfaceCmd::Park { id: id_copy });
            proof {
                assert(tabs0[i as int].id@ != tab_id@);
                assert(cmd_views(cmds@) =~= cmd_views(cmds_before).push(
                    CmdSpec::Park(tabs0[i as int].id@),
                ));
            }
        }
        i = i + 1;
    }
    proof {
        assert(tabs0.take(tabs0.len() as int) =~= tabs0);
    }
    match window {
        Some(m) => {
            let rect = resolve_content_rect(&state.content_bounds, state.chrome_y_offset, m);
            let t = tab_mut(&mut state.tabs, idx);
            t.rect = rect;
            t.visible = true;
            cmds.push(SurfaceCmd::Place { id: t.id.clone(), rect });
            cmds.push(SurfaceCmd::Show { id: t.id.clone() });
            cmds.push(SurfaceCmd::Focus { id: t.id.clone() });
        },
        None => {
            let t = tab_mut(&mut state.tabs, idx);
            t.visible = true;
            cmds.push(SurfaceCmd::Show { id: t.id.clone() });
            cmds.push(SurfaceCmd::Focus { id: t.id.clone() });
        },
    }
    state.active_tab = Some(tab_id.to_owned());
    proof {
        assert forall|j: int|
            0 <= j < state.tabs@.len() implies (#[trigger] state.tabs@[j]).id@
            == tabs0[j].id@ by {}
        assert forall|i2: int, j2: int|
            0 <= i2 < state.tabs@.len() && 0 <= j2 < state.tabs@.len() && i2 != j2 implies (
        #[trigger] state.tabs@[i2].id@) != (#[trigger] state.tabs@[j2].id@) by {
            assert(tabs0[i2].id@ != tabs0[j2].id@);
        }
        assert(state.tabs@[idx as int].id@ == tab_id@);
        assert forall|j: int|
            0 <= j < state.tabs@.len() && !state.tab_is_active(j) implies tab_parked(
            #[trigger] state.tabs@[j],
        ) by {
            assert(j != idx);
            assert(tabs0[j].id@ != tab_id@);
        }
        if window is Some {
            assert(cmd_views(cmds@) =~= park_cmds(tabs0, Some(tab_id@)) + seq![
                CmdSpec::Place(tab_id@, old(state).spec_resolved(*window->Some_0)),
            ] + seq![CmdSpec::Show(tab_id@), CmdSpec::Focus(tab_id@)]);
        } else {
            assert(cmd_views(cmds@) =~= park_cmds(tabs0, Some(tab_id@)) + Seq::empty() + seq![
                CmdSpec::Show(tab_id@),
                CmdSpec::Focus(tab_id@),
            ]);
        }
    }
    Ok(cmds)
}

/// The same tab with its surface shown, placement unchanged.
pub open spec fn spec_shown(t: Tab) -> Tab {
    Tab { id: t.id, url: t.url, title: t.title, rect: t.rect, visible: true }
}

/// The index of the tab carrying `id` (meaningful when `has_id` holds;
/// unique when ids are distinct).
pub open spec fn id_index(tabs: Seq<Tab>, id: Seq<char>) -> int {
    choose|i: int| 0 <= i < tabs.len() && tabs[i].id@ == id
}

proof fn lemma_remove_keeps_others(tabs: Seq<Tab>, idx: int)
    requires
        distinct_ids(tabs),
        0 <= idx < tabs.len(),
    ensures
        distinct_ids(tabs.remove(idx)),
        forall|x: Seq<char>|
            has_id(tabs, x) && x != tabs[idx].id@ ==> #[trigger] has_id(tabs.remove(idx), x),
{
    let rem = tabs.remove(idx);
    assert forall|j: int| 0 <= j < rem.len() implies #[trigger] rem[j] == (
    if j < idx {
        tabs[j]
    } else {
        tabs[j + 1]
    }) by {}
    assert forall|i: int, j: int|
        0 <= i < rem.len() && 0 <= j < rem.len() && i != j implies (#[trigger] rem[i].id@) != (
    #[trigger] rem[j].id@) by {
        let i0 = if i < idx { i } else { i + 1 };
        let j0 = if j < idx { j } else { j + 1 };
        assert(tabs[i0].id@ != tabs[j0].id@);
    }
    assert forall|x: Seq<char>|
        has_id(tabs, x) && x != tabs[idx].id@ implies #[trigger] has_id(tabs.remove(idx), x) by {
        let w = choose|w: int| 0 <= w < tabs.len() && tabs[w].id@ == x;
        if w < idx {
            assert(rem[w].id@ == x);
        } else {
            assert(rem[w - 1].id@ == x);
        }
    }
}

/// Closes a tab: destroys its surface and removes its record.  If the
/// closed tab was active, elects the first remaining tab (no ordering
/// guarantee is promised), shows and focuses it at its resolved placement
/// (placement is skipped when the window cannot be measured); when no tab
/// remains, the registry is left with no active tab and no visible
/// surface.
///
/// Fails with `NotFound`, mutating nothing, when the id is unknown.
pub fn close_tab(state: &mut TabState, tab_id: &str, window: Option<&WindowMetrics>) -> (r: Result<
    Vec<SurfaceCmd>,
    TabError,
>)
    requires
        old(state).inv(),
        window matches Some(m) ==> m.wf(),
    ensures
        final(state).inv(),
        final(state).content_bounds == old(state).content_bounds,
        final(state).chrome_y_offset == old(state).chrome_y_offset,
        !has_id(old(state).tabs@, tab_id@) ==> (r matches Err(e) && e == TabError::NotFound
            && *final(state) == *old(state)),
        has_id(old(state).tabs@, tab_id@) ==> {
            let idx = id_index(old(state).tabs@, tab_id@);
            let remaining = old(state).tabs@.remove(idx);
            let was_active = old(state).active_tab matches Some(a) && a@ == tab_id@;
            &&& r is Ok
            &&& final(state).tabs@.len() == old(state).tabs@.len() - 1
            &&& !has_id(final(state).tabs@, tab_id@)
            &&& (!was_active ==> final(state).tabs@ == remaining
                && final(state).active_tab == old(state).active_tab
                && cmd_views(r->Ok_0@) == seq![CmdSpec::Destroy(tab_id@)])
            &&& (was_active && remaining.len() == 0 ==> final(state).tabs@ == remaining
                && final(state).active_tab is None
                && cmd_views(r->Ok_0@) == seq![CmdSpec::Destroy(tab_id@)])
            &&& (was_active && remaining.len() > 0 ==> {
                let e = remaining[0];
                &&& final(state).active_tab matches Some(na) && na@ == e.id@
                &&& (window is Some ==> {
                    let rect = old(state).spec_resolved(*window->Some_0);
                    &&& final(state).tabs@ == remaining.update(0, spec_placed(e, rect))
                    &&& cmd_views(r->Ok_0@) == seq![
                        CmdSpec::Destroy(tab_id@),
                        CmdSpec::Place(e.id@, rect),
                        CmdSpec::Show(e.id@),
                        CmdSpec::Focus(e.id@),
                    ]
                })
                &&& (window is None ==> {
                    &&& final(state).tabs@ == remaining.update(0, spec_shown(e))
                    &&& cmd_views(r->Ok_0@) == seq![
                        CmdSpec::Destroy(tab_id@),
                        CmdSpec::Show(e.id@),
                        CmdSpec::Focus(e.id@),
                    ]
                })
            })
        },
{
    let idx: usize = match find_tab(&state.tabs, tab_id) {
        Some(i) => i,
        None => {
            return Err(TabError::NotFound);
        },
    };
    let ghost tabs0 = state.tabs@;
    proof {
        assert(tabs0[idx as int].id@ == tab_id@);
        let c = id_index(tabs0, tab_id@);
        assert(tabs0[c].id@ == tab_id@);
        assert(c == idx as int);
        lemma_remove_keeps_others(tabs0, idx as int);
    }
    let mut cmds: Vec<SurfaceCmd> = Vec::new();
    cmds.push(SurfaceCmd::Destroy { id: tab_id.to_owned() });
    let was_active: bool = match &state.active_tab {
        Some(a) => str_eq(a.as_str(), tab_id),
        None => false,
    };
    state.tabs.remove(idx);
    let ghost remaining = state.tabs@;
    if was_active {
        if state.tabs.len() == 0 {
            state.active_tab = None;
            proof {
                assert(cmd_views(cmds@) =~= seq![CmdSpec::Destroy(tab_id@)]);
            }
        } else {
            let rect_opt: Option<PhysRect> = match window {
                Some(m) => Some(
                    resolve_content_rect(&state.content_bounds, state.chrome_y_offset, m),
                ),
                None => None,
            };
            let t = tab_mut(&mut state.tabs, 0);
            let new_active: String = t.id.clone();
            match rect_opt {
                Some(rc) => {
                    t.rect = rc;
                    t.visible = true;
                    cmds.push(SurfaceCmd::Place { id: t.id.clone(), rect: rc });
                },
                None => {
                    t.visible = true;
                },
            }
            cmds.push(SurfaceCmd::Show { id: t.id.clone() });
            cmds.push(SurfaceCmd::Focus { id: t.id.clone() });
            state.active_tab = Some(new_active);
            proof {
                if window is Some {
                    assert(cmd_views(cmds@) =~= seq![
                        CmdSpec::Destroy(tab_id@),
                        CmdSpec::Place(remaining[0].id@, old(state).spec_resolved(*window->Some_0)),
                        CmdSpec::Show(remaining[0].id@),
                        CmdSpec::Focus(remaining[0].id@),
                    ]);
                    assert(state.tabs@ =~= remaining.update(
                        0,
                        spec_placed(remaining[0], old(state).spec_resolved(*window->Some_0)),
                    ));
                } else {
                    assert(cmd_views(cmds@) =~= seq![
                        CmdSpec::Destroy(tab_id@),
                        CmdSpec::Show(remaining[0].id@),
                        CmdSpec::Focus(remaining[0].id@),
                    ]);
                    assert(state.tabs@ =~= remaining.update(0, spec_shown(remaining[0])));
                }
            }
        }
    } else {
        proof {
            assert(cmd_views(cmds@) =~= seq![CmdSpec::Destroy(tab_id@)]);
        }
    }
    proof {
        lemma_close_restores_inv(*old(state), *state, tabs0, remaining, idx as int, tab_id@);
    }
    Ok(cmds)
}

proof fn lemma_close_restores_inv(
    s0: TabState,
    s1: TabState,
    tabs0: Seq<Tab>,
    remaining: Seq<Tab>,
    idx: int,
    closed: Seq<char>,
)
    requires
        s0.inv(),
        tabs0 == s0.tabs@,
        0 <= idx < tabs0.len(),
        tabs0[idx].id@ == closed,
        remaining == tabs0.remove(idx),
        s1.content_bounds == s0.content_bounds,
        s1.chrome_y_offset == s0.chrome_y_offset,
        ({
            let was_active = s0.active_tab matches Some(a) && a@ == closed;
            ||| (!was_active && s1.tabs@ == remaining && s1.active_tab == s0.active_tab)
            ||| (was_active && remaining.len() == 0 && s1.tabs@ == remaining
                && s1.active_tab is None)
            ||| (was_active && remaining.len() > 0 && (s1.active_tab matches Some(na) && na@
                == remaining[0].id@) && (exists|u: Tab|
                #![auto]
                (u == spec_placed(remaining[0], u.rect) || u == spec_shown(remaining[0]))
                    && s1.tabs@ == remaining.update(0, u)))
        }),
    ensures
        s1.inv(),
        !has_id(s1.tabs@, closed),
{
    lemma_remove_keeps_others(tabs0, idx);
    assert forall|j: int| 0 <= j < remaining.len() implies #[trigger] remaining[j] == (
    if j < idx {
        tabs0[j]
    } else {
        tabs0[j + 1]
    }) by {}
    // the closed id is gone: any remaining index maps to a distinct old index
    assert forall|j: int| 0 <= j < s1.tabs@.len() implies (#[trigger] s1.tabs@[j]).id@
        != closed by {
        let j0 = if j < idx { j } else { j + 1 };
        assert(remaining[j].id@ == tabs0[j0].id@);
        assert(tabs0[j0].id@ != tabs0[idx].id@);
    }
    let was_active = s0.active_tab matches Some(a) && a@ == closed;
    if !was_active {
        if s0.active_tab is Some {
            assert(has_id(remaining, s0.active_tab->Some_0@));
        }
        assert forall|j: int|
            0 <= j < s1.tabs@.len() && !s1.tab_is_active(j) implies tab_parked(
            #[trigger] s1.tabs@[j],
        ) by {
            let j0 = if j < idx { j } else { j + 1 };
            assert(s1.tabs@[j] == tabs0[j0]);
            assert(!s0.tab_is_active(j0));
        }
    } else if remaining.len() > 0 {
        assert(s1.tabs@[0].id@ == remaining[0].id@);
        assert(has_id(s1.tabs@, remaining[0].id@));
        assert forall|i: int, j: int|
            0 <= i < s1.tabs@.len() && 0 <= j < s1.tabs@.len() && i != j implies (
        #[trigger] s1.tabs@[i].id@) != (#[trigger] s1.tabs@[j].id@) by {
            assert(s1.tabs@[i].id@ == remaining[i].id@);
            assert(s1.tabs@[j].id@ == remaining[j].id@);
        }
        assert forall|j: int|
            0 <= j < s1.tabs@.len() && !s1.tab_is_active(j) implies tab_parked(
            #[trigger] s1.tabs@[j],
        ) by {
            assert(s1.tabs@[j].id@ == remaining[j].id@);
            assert(j != 0);
            let j0 = if j < idx { j } else { j + 1 };
            assert(s1.tabs@[j] == remaining[j]);
            assert(remaining[j] == tabs0[j0]);
            assert(tabs0[j0].id@ != tabs0[idx].id@);
            assert(!s0.tab_is_active(j0));
        }
    }
}

/// Recomputes the resolved placement and applies it to the active
/// surface only; parked surfaces stay off-screen.  Never touches the
/// latched chrome offset or the stored bounds.
///
/// Succeeds doing nothing when no tab is active; fails with
/// `WindowMissing`, mutating nothing, when a tab is active but the
/// window cannot be measured.
pub fn reposition_webviews(state: &mut TabState, window: Option<&WindowMetrics>) -> (r: Result<
    Vec<SurfaceCmd>,
    TabError,
>)
    requires
        old(state).inv(),
        window matches Some(m) ==> m.wf(),
    ensures
        final(state).inv(),
        final(state).active_tab == old(state).active_tab,
        final(state).content_bounds == old(state).content_bounds,
        final(state).chrome_y_offset == old(state).chrome_y_offset,
        old(state).active_tab is None ==> (r matches Ok(c) && c@.len() == 0 && *final(state)
            == *old(state)),
        old(state).active_tab is Some && window is None ==> (r matches Err(e) && e
            == TabError::WindowMissing && *final(state) == *old(state)),
        old(state).active_tab is Some && window is Some ==> {
            let a = old(state).active_tab->Some_0;
            let rect = old(state).spec_resolved(*window->Some_0);
            &&& r is Ok
            &&& cmd_views(r->Ok_0@) == seq![CmdSpec::Place(a@, rect)]
            &&& final(state).tabs@.len() == old(state).tabs@.len()
            &&& (forall|i: int|
                0 <= i < old(state).tabs@.len() ==> final(state).tabs@[i] == (
                if old(state).tabs@[i].id@ == a@ {
                    spec_with_rect(#[trigger] old(state).tabs@[i], rect)
                } else {
                    old(state).tabs@[i]
                }))
        },
{
    let active: String = match &state.active_tab {
        Some(a) => a.clone(),
        None => {
            return Ok(Vec::new());
        },
    };
    let m: &WindowMetrics = match window {
        Some(m) => m,
        None => {
            return Err(TabError::WindowMissing);
        },
    };
    let rect = resolve_content_rect(&state.content_bounds, state.chrome_y_offset, m);
    let idx: usize = match find_tab(&state.tabs, active.as_str()) {
        Some(i) => i,
        None => {
            proof {
                assert(false);
            }
            return Err(TabError::NotFound);
        },
    };
    let ghost tabs0 = state.tabs@;
    let t = tab_mut(&mut state.tabs, idx);
    t.rect = rect;
    let mut cmds: Vec<SurfaceCmd> = Vec::new();
    cmds.push(SurfaceCmd::Place { id: t.id.clone(), rect });
    proof {
        assert(cmd_views(cmds@) =~= seq![CmdSpec::Place(active@, rect)]);
        assert forall|i: int|
            0 <= i < state.tabs@.len() implies (#[trigger] state.tabs@[i]) == (
        if tabs0[i].id@ == active@ {
            spec_with_rect(tabs0[i], rect)
        } else {
            tabs0[i]
        }) by {
            if i != idx {
                assert(tabs0[i].id@ != tabs0[idx as int].id@);
            }
        }
        assert forall|j: int|
            0 <= j < state.tabs@.len() && !state.tab_is_active(j) implies tab_parked(
            #[trigger] state.tabs@[j],
        ) by {
            assert(j != idx);
        }
        if state.active_tab is Some {
            let a = state.active_tab->Some_0;
            assert(state.tabs@[idx as int].id@ == a@);
        }
    }
    Ok(cmds)
}

/// Stores a bounds report: latches the chrome offset computed from the
/// report and the window's logical interior height, stores the bounds,
/// then repositions the active surface exactly as
/// [`reposition_webviews`] does.
///
/// Fails with `WindowMissing`, mutating nothing, when the window cannot
/// be measured.
pub fn set_content_bounds(state: &mut TabState, bounds: ContentBounds, window: Option<
    &WindowMetrics,
>) -> (r: Result<Vec<SurfaceCmd>, TabError>)
    requires
        old(state).inv(),
        bounds.wf(),
        window matches Some(m) ==> m.wf(),
    ensures
        final(state).inv(),
        final(state).active_tab == old(state).active_tab,
        window is None ==> (r matches Err(e) && e == TabError::WindowMissing && *final(state)
            == *old(state)),
        window matches Some(m) ==> {
            let off = spec_chrome_offset(bounds, *m);
            let rect = spec_resolved_rect(Some(bounds), off, *m);
            &&& final(state).chrome_y_offset as int == off
            &&& final(state).content_bounds == Some(bounds)
            &&& r is Ok
            &&& final(state).tabs@.len() == old(state).tabs@.len()
            &&& (forall|i: int|
                0 <= i < old(state).tabs@.len() ==> final(state).tabs@[i] == (
                if old(state).active_tab matches Some(a) && old(state).tabs@[i].id@ == a@ {
                    spec_with_rect(#[trigger] old(state).tabs@[i], rect)
                } else {
                    old(state).tabs@[i]
                }))
            &&& cmd_views(r->Ok_0@) == (if old(state).active_tab is Some {
                seq![CmdSpec::Place(old(state).active_tab->Some_0@, rect)]
            } else {
                Seq::empty()
            })
        },
{
    let m: &WindowMetrics = match window {
        Some(m) => m,
        None => {
            return Err(TabError::WindowMissing);
        },
    };
    let off = chrome_offset(&bounds, m);
    state.chrome_y_offset = off;
    state.content_bounds = Some(bounds);
    reposition_webviews(state, window)
}

/// Evaluates a script in a tab's surface, fire-and-forget: the result
/// signals only whether the injection was accepted, never what the
/// script produced.  Fails with `NotFound` when the id is unknown.
pub fn run_js_in_tab(state: &TabState, tab_id: &str, code: &str) -> (r: Result<
    Vec<SurfaceCmd>,
    TabError,
>)
    ensures
        has_id(state.tabs@, tab_id@) ==> r is Ok && cmd_views(r->Ok_0@) == seq![
            CmdSpec::Eval(tab_id@, code@),
        ],
        !has_id(state.tabs@, tab_id@) ==> (r matches Err(e) && e == TabError::NotFound),
{
    match find_tab(&state.tabs, tab_id) {
        Some(_) => {
            let mut cmds: Vec<SurfaceCmd> = Vec::new();
            cmds.push(SurfaceCmd::Eval { id: tab_id.to_owned(), code: code.to_owned() });
            proof {
                assert(cmd_views(cmds@) =~= seq![CmdSpec::Eval(tab_id@, code@)]);
            }
            Ok(cmds)
        },
        None => Err(TabError::NotFound),
    }
}

/// Every tab, as a snapshot list for the UI layer.
pub fn list_tabs(state: &TabState) -> (r: Vec<TabInfo>)
    ensures
        r@.len() == state.tabs@.len(),
        forall|i: int|
            0 <= i < r@.len() ==> {
                &&& (#[trigger] r@[i]).id@ == state.tabs@[i].id@
                &&& r@[i].url@ == state.tabs@[i].url@
                &&& r@[i].title@ == state.tabs@[i].title@
            },
{
    let mut r: Vec<TabInfo> = Vec::new();
    let mut i: usize = 0;
    while i < state.tabs.len()
        invariant
            i <= state.tabs@.len(),
            r@.len() == i,
            forall|j: int|
                0 <= j < i ==> {
                    &&& (#[trigger] r@[j]).id@ == state.tabs@[j].id@
                    &&& r@[j].url@ == state.tabs@[j].url@
                    &&& r@[j].title@ == state.tabs@[j].title@
                },
        decreases state.tabs@.len() - i,
    {
        let t = &state.tabs[i];
        r.push(TabInfo { id: t.id.clone(), url: t.url.clone(), title: t.title.clone() });
        i = i + 1;
    }
    r
}

/// The id of the active tab, if any.
pub fn get_active_tab(state: &TabState) -> (r: Option<String>)
    ensures
        r is Some <==> state.active_tab is Some,
        r matches Some(a) ==> state.active_tab matches Some(b) && a@ == b@,
{
    match &state.active_tab {
        Some(a) => Some(a.clone()),
        None => None,
    }
}


/// The platform the shell runs on, as far as surface behavior differs.
#[derive(Clone, Copy, PartialEq, Eq, Structural, Debug)]
pub enum Platform {
    MacOs,
    Windows,
    Linux,
    Other,
}

/// Browser-like user agent presented on Apple platforms.
pub const MACOS_USER_AGENT: &'static str = "Mozilla/5.0 (Macintosh; Intel Mac OS X 14_2) AppleWebKit/605.1.15 (KHTML, like Gecko) Version/17.2 Safari/605.1.15";

/// Browser-like user agent presented on Windows.
pub const WINDOWS_USER_AGENT: &'static str = "Mozilla/5.0 (Windows NT 10.0; Win64; x64) AppleWebKit/537.36 (KHTML, like Gecko) Chrome/122.0.0.0 Safari/537.36 Edg/122.0.0.0";

/// Browser-like user agent presented on Linux.
pub const LINUX_USER_AGENT: &'static str = "Mozilla/5.0 (X11; Linux x86_64) AppleWebKit/537.36 (KHTML, like Gecko) Chrome/122.0.0.0 Safari/537.36";

/// The user-agent override for a platform, if any.
pub open spec fn spec_user_agent(p: Platform) -> Option<Seq<char>> {
    match p {
        Platform::MacOs => Some(MACOS_USER_AGENT@),
        Platform::Windows => Some(WINDOWS_USER_AGENT@),
        Platform::Linux => Some(LINUX_USER_AGENT@),
        Platform::Other => None,
    }
}

/// The user-agent string a new surface is created with, if the platform
/// has one.
pub fn user_agent_override(p: Platform) -> (r: Option<&'static str>)
    ensures
        r is Some <==> spec_user_agent(p) is Some,
        r matches Some(s) ==> s@ == spec_user_agent(p)->Some_0,
{
    match p {
        Platform::MacOs => Some(MACOS_USER_AGENT),
        Platform::Windows => Some(WINDOWS_USER_AGENT),
        Platform::Linux => Some(LINUX_USER_AGENT),
        Platform::Other => None,
    }
}

/// Everything the host layer needs to build one new surface: identity,
/// navigation target, exact placement, user agent and the injected
/// payloads, in injection order.
pub struct CreatePlan {
    /// The fresh tab id.
    pub id: String,
    /// The native label for the surface.
    pub label: String,
    /// The URL recorded in the registry once the surface exists.
    pub stored_url: String,
    /// The external URL to load, or `None` for the internal blank page.
    pub external_url: Option<String>,
    /// The placement of the new surface.
    pub rect: PhysRect,
    /// The user-agent override, if the platform has one.
    pub user_agent: Option<String>,
    /// The initialization scripts, in injection order.
    pub scripts: Vec<String>,
}

/// Stage one of opening a tab: validates the request, resolves the
/// placement, parks every existing surface and returns the build plan
/// for the new surface together with the park commands.  The registry
/// record is only inserted by [`create_tab_commit`], once the host layer
/// reports that the surface exists.
///
/// Fails with `WindowMissing` when the window cannot be measured, and
/// with `InvalidUrl` when the request is neither blank nor a parseable
/// URL; neither failure mutates the state.
pub fn create_tab(
    state: &mut TabState,
    url: &str,
    window: Option<&WindowMetrics>,
    platform: Platform,
    debug_capture: bool,
) -> (r: Result<(CreatePlan, Vec<SurfaceCmd>), TabError>)
    requires
        old(state).inv(),
        window matches Some(m) ==> m.wf(),
    ensures
        final(state).inv(),
        final(state).active_tab == old(state).active_tab,
        final(state).content_bounds == old(state).content_bounds,
        final(state).chrome_y_offset == old(state).chrome_y_offset,
        window is None ==> (r matches Err(e) && e == TabError::WindowMissing && *final(state)
            == *old(state)),
        window is Some && !spec_blank_request(url@) && !url_ok(url@) ==> (r matches Err(e) && e
            == TabError::InvalidUrl && *final(state) == *old(state)),
        window is Some && (spec_blank_request(url@) || url_ok(url@)) ==> {
            let plan = r->Ok_0.0;
            let cmds = r->Ok_0.1;
            &&& r is Ok
            &&& final(state).tabs@.len() == old(state).tabs@.len()
            &&& (forall|i: int|
                0 <= i < old(state).tabs@.len() ==> final(state).tabs@[i] == spec_parked(
                    #[trigger] old(state).tabs@[i],
                ))
            &&& cmd_views(cmds@) == park_cmds(old(state).tabs@, None::<Seq<char>>)
            &&& plan.id@.len() == 36
            &&& plan.label@ == spec_tab_label(plan.id@)
            &&& plan.stored_url@ == (if spec_blank_request(url@) {
                ABOUT_BLANK@
            } else {
                url@
            })
            &&& (spec_blank_request(url@) ==> plan.external_url is None)
            &&& (!spec_blank_request(url@) ==> (plan.external_url matches Some(u) && u@ == url@))
            &&& plan.rect == old(state).spec_resolved(*window->Some_0)
            &&& (plan.user_agent is Some <==> spec_user_agent(platform) is Some)
            &&& (plan.user_agent matches Some(ua) ==> ua@ == spec_user_agent(platform)->Some_0)
            &&& (debug_capture ==> plan.scripts@.len() == 2 && plan.scripts@[0]@
                == spec_debug_script(plan.id@) && plan.scripts@[1]@ == spec_link_script(plan.id@))
            &&& (!debug_capture ==> plan.scripts@.len() == 1 && plan.scripts@[0]@
                == spec_link_script(plan.id@))
        },
{
    let m: &WindowMetrics = match window {
        Some(m) => m,
        None => {
            return Err(TabError::WindowMissing);
        },
    };
    let external_url: Option<String> = if is_blank_request(url) {
        None
    } else if url_is_valid(url) {
        Some(url.to_owned())
    } else {
        return Err(TabError::InvalidUrl);
    };
    let id = fresh_tab_id();
    let label = tab_label(id.as_str());
    let rect = resolve_content_rect(&state.content_bounds, state.chrome_y_offset, m);
    let stored_url: String = if is_blank_request(url) {
        String::from_str(ABOUT_BLANK)
    } else {
        url.to_owned()
    };
    let cmds = hide_all_tabs(state);
    let user_agent: Option<String> = match user_agent_override(platform) {
        Some(s) => Some(s.to_owned()),
        None => None,
    };
    let mut scripts: Vec<String> = Vec::new();
    match debug_init_script(id.as_str(), debug_capture) {
        Some(sc) => {
            scripts.push(sc);
        },
        None => {},
    }
    scripts.push(link_intercept_script(id.as_str()));
    let plan = CreatePlan { id, label, stored_url, external_url, rect, user_agent, scripts };
    Ok((plan, cmds))
}

/// Stage two of opening a tab: records the new tab as active at the
/// planned placement, shown, titled `New Tab`.  To be called once the
/// host layer has built the surface from the plan (every other surface
/// is already parked by [`create_tab`]); a record under the same id, if
/// one ever existed, is replaced.  Returns the new tab's id.
pub fn create_tab_commit(state: &mut TabState, plan: CreatePlan) -> (r: String)
    requires
        old(state).inv(),
        forall|i: int|
            0 <= i < old(state).tabs@.len() ==> tab_parked(#[trigger] old(state).tabs@[i]),
    ensures
        final(state).inv(),
        r@ == plan.id@,
        final(state).content_bounds == old(state).content_bounds,
        final(state).chrome_y_offset == old(state).chrome_y_offset,
        final(state).active_tab matches Some(a) && a@ == plan.id@,
        final(state).tabs@.len() > 0,
        ({
            let t = final(state).tabs@.last();
            &&& t.id@ == plan.id@
            &&& t.url@ == plan.stored_url@
            &&& t.title@ == "New Tab"@
            &&& t.rect == plan.rect
            &&& t.visible
        }),
        !has_id(old(state).tabs@, plan.id@) ==> final(state).tabs@.len() == old(state).tabs@.len()
            + 1 && (forall|i: int|
            0 <= i < old(state).tabs@.len() ==> final(state).tabs@[i] == #[trigger] old(
                state,
            ).tabs@[i]),
        has_id(old(state).tabs@, plan.id@) ==> final(state).tabs@.len() == old(state).tabs@.len()
            && final(state).tabs@.drop_last() == old(state).tabs@.remove(
            id_index(old(state).tabs@, plan.id@),
        ),
{
    let id_ret: String = plan.id.clone();
    match find_tab(&state.tabs, plan.id.as_str()) {
        Some(i) => {
            proof {
                let c = id_index(state.tabs@, plan.id@);
                assert(state.tabs@[c].id@ == plan.id@);
                assert(c == i as int);
                lemma_remove_keeps_others(state.tabs@, i as int);
            }
            state.tabs.remove(i);
        },
        None => {},
    }
    let ghost mid = state.tabs@;
    let title = String::from_str("New Tab");
    state.tabs.push(
        Tab { id: plan.id, url: plan.stored_url, title, rect: plan.rect, visible: true },
    );
    state.active_tab = Some(id_ret.clone());
    proof {
        let n = state.tabs@.len() - 1;
        let tabs_old = old(state).tabs@;
        assert(state.tabs@.last().id@ == plan.id@);
        assert(state.tabs@.drop_last() =~= mid);
        // no record under plan.id survives in `mid`, every survivor is
        // parked, and survivors stay distinct
        if has_id(tabs_old, plan.id@) {
            let c = id_index(tabs_old, plan.id@);
            assert(0 <= c < tabs_old.len() && tabs_old[c].id@ == plan.id@);
            assert(mid == tabs_old.remove(c));
            assert forall|j: int| 0 <= j < mid.len() implies #[trigger] mid[j] == (
            if j < c {
                tabs_old[j]
            } else {
                tabs_old[j + 1]
            }) by {}
            assert forall|j: int|
                0 <= j < mid.len() implies (#[trigger] mid[j]).id@ != plan.id@ && tab_parked(
                mid[j],
            ) by {
                let j0 = if j < c { j } else { j + 1 };
                assert(tabs_old[j0].id@ != tabs_old[c].id@);
                assert(tab_parked(tabs_old[j0]));
            }
        } else {
            assert(mid == tabs_old);
            assert forall|j: int|
                0 <= j < mid.len() implies (#[trigger] mid[j]).id@ != plan.id@ && tab_parked(
                mid[j],
            ) by {
                if mid[j].id@ == plan.id@ {
                    assert(has_id(tabs_old, plan.id@));
                }
                assert(tab_parked(tabs_old[j]));
            }
        }
        assert forall|i2: int, j2: int|
            0 <= i2 < mid.len() && 0 <= j2 < mid.len() && i2 != j2 implies (
        #[trigger] mid[i2].id@) != (#[trigger] mid[j2].id@) by {
            if has_id(tabs_old, plan.id@) {
                let c = id_index(tabs_old, plan.id@);
                let i0 = if i2 < c { i2 } else { i2 + 1 };
                let j0 = if j2 < c { j2 } else { j2 + 1 };
                assert(mid[i2] == tabs_old[i0]);
                assert(mid[j2] == tabs_old[j0]);
                assert(tabs_old[i0].id@ != tabs_old[j0].id@);
            }
        }
        assert forall|i2: int, j2: int|
            0 <= i2 < state.tabs@.len() && 0 <= j2 < state.tabs@.len() && i2 != j2 implies (
        #[trigger] state.tabs@[i2].id@) != (#[trigger] state.tabs@[j2].id@) by {
            if i2 < n && j2 < n {
                assert(state.tabs@[i2] == mid[i2]);
                assert(state.tabs@[j2] == mid[j2]);
                assert(mid[i2].id@ != mid[j2].id@);
            } else {
                if i2 < n {
                    assert(state.tabs@[i2] == mid[i2]);
                    assert(mid[i2].id@ != plan.id@);
                }
                if j2 < n {
                    assert(state.tabs@[j2] == mid[j2]);
                    assert(mid[j2].id@ != plan.id@);
                }
            }
        }
        assert(has_id(state.tabs@, plan.id@)) by {
            assert(state.tabs@[n].id@ == plan.id@);
        }
        assert forall|j: int|
            0 <= j < state.tabs@.len() && !state.tab_is_active(j) implies tab_parked(
            #[trigger] state.tabs@[j],
        ) by {
            assert(j != n);
            assert(state.tabs@[j] == mid[j]);
            assert(tab_parked(mid[j]));
        }
    }
    id_ret
}

/// Updates a tab's recorded URL and issues the navigation; completion is
/// observed later through the page-load callback, not by this call.
///
/// Fails with `NotFound`, mutating nothing, when the id is unknown.
/// When the id is known but the URL does not parse, the recorded URL is
/// still updated (the registry records the intent) and the call fails
/// with `InvalidUrl` without issuing a navigation.
pub fn navigate_tab(state: &mut TabState, tab_id: &str, url: &str) -> (r: Result<
    Vec<SurfaceCmd>,
    TabError,
>)
    requires
        old(state).inv(),
    ensures
        final(state).inv(),
        final(state).active_tab == old(state).active_tab,
        final(state).content_bounds == old(state).content_bounds,
        final(state).chrome_y_offset == old(state).chrome_y_offset,
        !has_id(old(state).tabs@, tab_id@) ==> (r matches Err(e) && e == TabError::NotFound
            && *final(state) == *old(state)),
        has_id(old(state).tabs@, tab_id@) ==> {
            let idx = id_index(old(state).tabs@, tab_id@);
            &&& final(state).tabs@.len() == old(state).tabs@.len()
            &&& (forall|i: int|
                0 <= i < old(state).tabs@.len() && i != idx ==> final(state).tabs@[i]
                    == #[trigger] old(state).tabs@[i])
            &&& ({
                let t0 = old(state).tabs@[idx];
                let t1 = final(state).tabs@[idx];
                t1.id == t0.id && t1.title == t0.title && t1.rect == t0.rect && t1.visible
                    == t0.visible && t1.url@ == url@
            })
            &&& (url_ok(url@) ==> r is Ok && cmd_views(r->Ok_0@) == seq![
                CmdSpec::Navigate(tab_id@, url@),
            ])
            &&& (!url_ok(url@) ==> (r matches Err(e) && e == TabError::InvalidUrl))
        },
{
    let idx: usize = match find_tab(&state.tabs, tab_id) {
        Some(i) => i,
        None => {
            return Err(TabError::NotFound);
        },
    };
    let ghost tabs0 = state.tabs@;
    proof {
        let c = id_index(tabs0, tab_id@);
        assert(tabs0[c].id@ == tab_id@);
        assert(c == idx as int);
    }
    let t = tab_mut(&mut state.tabs, idx);
    t.url = url.to_owned();
    proof {
        assert forall|j: int|
            0 <= j < state.tabs@.len() implies (#[trigger] state.tabs@[j]).id@
            == tabs0[j].id@ by {}
        assert forall|i2: int, j2: int|
            0 <= i2 < state.tabs@.len() && 0 <= j2 < state.tabs@.len() && i2 != j2 implies (
        #[trigger] state.tabs@[i2].id@) != (#[trigger] state.tabs@[j2].id@) by {
            assert(tabs0[i2].id@ != tabs0[j2].id@);
        }
        assert forall|j: int|
            0 <= j < state.tabs@.len() && !state.tab_is_active(j) implies tab_parked(
            #[trigger] state.tabs@[j],
        ) by {
            if j != idx {
                assert(state.tabs@[j] == tabs0[j]);
            }
            assert(!old(state).tab_is_active(j));
            if j == idx {
                assert(tab_parked(tabs0[j]));
            }
        }
        if state.active_tab is Some {
            let a = state.active_tab->Some_0;
            let w = choose|k: int| 0 <= k < tabs0.len() && tabs0[k].id@ == a@;
            assert(state.tabs@[w].id@ == a@);
        }
    }
    if url_is_valid(url) {
        let mut cmds: Vec<SurfaceCmd> = Vec::new();
        cmds.push(SurfaceCmd::Navigate { id: tab_id.to_owned(), url: url.to_owned() });
        proof {
            assert(cmd_views(cmds@) =~= seq![CmdSpec::Navigate(tab_id@, url@)]);
        }
        Ok(cmds)
    } else {
        Err(TabError::InvalidUrl)
    }
}


} // verus!
