//! Fresh tab identifiers and surface labels.

use vstd::prelude::*;

verus! {

/// Relies on `uuid::Uuid::new_v4` and the hyphenated `Display` of a
/// UUID: a freshly drawn random identifier, rendered as 36 characters.
/// Nothing is assumed about which value comes back: two calls may or may
/// not differ.
#[verifier::external_body]
pub(crate) fn fresh_tab_id() -> (r: String)
    ensures
        r@.len() == 36,
{
    uuid::Uuid::new_v4().to_string()
}

/// The native label of a tab's surface.
pub open spec fn spec_tab_label(id: Seq<char>) -> Seq<char> {
    "tab-"@ + id
}

/// Builds the native label under which a tab's surface is registered.
pub fn tab_label(id: &str) -> (r: String)
    ensures
        r@ == spec_tab_label(id@),
{
    let mut r = String::from_str("tab-");
    r.append(id);
    r
}

} // verus!
