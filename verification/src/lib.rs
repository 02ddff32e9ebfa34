//! Surface lifecycle and layout coordination for a tabbed browser shell.
//!
//! The library manages a registry of content surfaces (one per open tab),
//! enforces a single-active-surface visibility invariant, and translates
//! the host window's physical measurements and the UI layer's logical
//! bounds reports into exact physical-pixel placements.  Lifecycle
//! operations are decision procedures: they update the registry and
//! return the imperative surface commands the host layer must perform.

pub mod errors;
pub mod geometry;
pub mod ids;
pub mod laws;
pub mod logger;
pub mod scripts;
pub mod sidecar;
pub mod tabs;
pub mod text;
pub mod urls;
pub mod watcher;
