//! Library-wide laws, stated and proved over the same spec functions
//! the operations' contracts use.

use vstd::prelude::*;

use crate::geometry::{
    ContentBounds, WindowMetrics, spec_chrome_offset, spec_resolved_rect, sentinel_rect,
};
use crate::tabs::{TabState, tab_parked};

verus! {

/// At most one surface ever sits inside the visible window: in any
/// state satisfying the registry invariant, of any two distinct tabs at
/// least one is parked at the off-screen sentinel with zero size, so
/// only the active tab's surface can be placed within the window.
pub proof fn lemma_at_most_one_surface_placed(s: TabState, i: int, j: int)
    requires
        s.inv(),
        0 <= i < s.tabs@.len(),
        0 <= j < s.tabs@.len(),
        i != j,
    ensures
        tab_parked(s.tabs@[i]) || tab_parked(s.tabs@[j]),
{
    if !tab_parked(s.tabs@[i]) && !tab_parked(s.tabs@[j]) {
        assert(s.tab_is_active(i));
        assert(s.tab_is_active(j));
        assert(s.tabs@[i].id@ != s.tabs@[j].id@);
    }
}

/// A non-active tab's recorded placement is exactly the off-screen
/// sentinel, in every state satisfying the registry invariant.
pub proof fn lemma_inactive_tab_at_sentinel(s: TabState, i: int)
    requires
        s.inv(),
        0 <= i < s.tabs@.len(),
        !s.tab_is_active(i),
    ensures
        s.tabs@[i].rect == sentinel_rect(),
        !s.tabs@[i].visible,
{
}

/// Reporting bounds is idempotent: the layout a report latches depends
/// only on the report and the live window metrics, never on the
/// previous state.  So once a first report of `b` under metrics `m` has
/// set the stored bounds and chrome offset (as `set_content_bounds`
/// ensures), the state already resolves to exactly the placement a
/// second, identical report would command again.
pub proof fn lemma_report_bounds_idempotent(latched: TabState, b: ContentBounds, m: WindowMetrics)
    requires
        latched.content_bounds == Some(b),
        latched.chrome_y_offset as int == spec_chrome_offset(b, m),
    ensures
        latched.spec_resolved(m) == spec_resolved_rect(Some(b), spec_chrome_offset(b, m), m),
{
}

/// The chrome offset is latched: once a report of `b` under metrics `m1`
/// has set the stored bounds and offset, a window resize alone — new
/// metrics `m2`, no new report — resolves the placement with the offset
/// computed under `m1`, never one recomputed from `m2`.  (Every
/// operation but `set_content_bounds` also ensures the stored offset
/// itself is unchanged.)
pub proof fn lemma_offset_latched_across_resize(
    latched: TabState,
    b: ContentBounds,
    m1: WindowMetrics,
    m2: WindowMetrics,
)
    requires
        latched.content_bounds == Some(b),
        latched.chrome_y_offset as int == spec_chrome_offset(b, m1),
    ensures
        latched.spec_resolved(m2) == spec_resolved_rect(Some(b), spec_chrome_offset(b, m1), m2),
{
}

} // verus!
