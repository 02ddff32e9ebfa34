//! Error taxonomy of the core.
//!
//! Every lifecycle or relay failure is one of these variants; the host
//! layer turns a variant into the descriptive string it reports to the
//! UI via [`TabError::message`].

use vstd::prelude::*;

verus! {

/// Why a lifecycle or relay operation failed.
#[derive(Clone, Copy, PartialEq, Eq, Structural, Debug)]
pub enum TabError {
    /// The operation referenced a tab id absent from the registry.
    NotFound,
    /// The supplied string does not parse as a URL.
    InvalidUrl,
    /// The host window handle (or its measurements) is unavailable.
    WindowMissing,
    /// The platform rejected the creation of a surface.
    SurfaceCreateFailed,
    /// The platform rejected an operation on an existing surface.
    SurfaceOpFailed,
    /// Exclusive access to the shared registry could not be acquired.
    LockUnavailable,
    /// A relay payload was not valid JSON.
    InvalidJson,
}

impl TabError {
    /// A short descriptive message for the failure.
    pub fn message(&self) -> (r: String)
        ensures
            *self is NotFound ==> r@ == "Tab not found"@,
            *self is InvalidUrl ==> r@ == "Invalid URL"@,
            *self is WindowMissing ==> r@ == "Main window not found"@,
            *self is SurfaceCreateFailed ==> r@ == "Failed to create webview"@,
            *self is SurfaceOpFailed ==> r@ == "Webview operation failed"@,
            *self is LockUnavailable ==> r@ == "State lock unavailable"@,
            *self is InvalidJson ==> r@ == "Invalid JSON from sidecar"@,
    {
        match self {
            TabError::NotFound => String::from_str("Tab not found"),
            TabError::InvalidUrl => String::from_str("Invalid URL"),
            TabError::WindowMissing => String::from_str("Main window not found"),
            TabError::SurfaceCreateFailed => String::from_str("Failed to create webview"),
            TabError::SurfaceOpFailed => String::from_str("Webview operation failed"),
            TabError::LockUnavailable => String::from_str("State lock unavailable"),
            TabError::InvalidJson => String::from_str("Invalid JSON from sidecar"),
        }
    }
}

} // verus!
