//! The inspector watcher's decision core.
//!
//! One polling task runs per live surface.  Each tick the host layer
//! reports whether the surface still resolves and whether its embedded
//! inspector is open; this state machine answers with the one action to
//! take.  The loop terminates exactly when the surface is gone, and the
//! detach command fires only on the closed-to-open edge.

use vstd::prelude::*;

verus! {

/// What the polling loop does after a tick.
#[derive(Clone, Copy, PartialEq, Eq, Structural, Debug)]
pub enum WatchStep {
    /// The surface no longer resolves: end the loop.
    Stop,
    /// The inspector just opened: issue the one-shot detach command
    /// (best effort), then sleep until the next tick.
    Detach,
    /// Nothing to do: sleep until the next tick.
    Sleep,
}

/// Per-surface watcher state: whether the inspector was open at the
/// previous tick.
pub struct InspectorWatch {
    pub inspector_was_open: bool,
}

impl InspectorWatch {
    /// A fresh watcher, started at surface creation: the inspector has
    /// not been seen open yet.
    pub fn new() -> (w: InspectorWatch)
        ensures
            !w.inspector_was_open,
    {
        InspectorWatch { inspector_was_open: false }
    }

    /// One poll tick: stops when the surface is gone, detaches exactly
    /// on the closed-to-open edge, otherwise sleeps; always records the
    /// observed inspector state.
    pub fn on_poll(&mut self, surface_exists: bool, inspector_open: bool) -> (a: WatchStep)
        ensures
            !surface_exists ==> a is Stop && *final(self) == *old(self),
            surface_exists ==> final(self).inspector_was_open == inspector_open,
            surface_exists && inspector_open && !old(self).inspector_was_open ==> a is Detach,
            surface_exists && !(inspector_open && !old(self).inspector_was_open) ==> a is Sleep,
    {
        if !surface_exists {
            return WatchStep::Stop;
        }
        let edge = inspector_open && !self.inspector_was_open;
        self.inspector_was_open = inspector_open;
        if edge {
            WatchStep::Detach
        } else {
            WatchStep::Sleep
        }
    }
}

} // verus!
