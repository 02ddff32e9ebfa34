//! URL validation and normalization.
//!
//! Parsing is delegated to the `url` crate; the library only needs to
//! know whether a string parses and, for a parsed URL, its path and
//! serialization.  Normalization maps the internal blank-page resource
//! to the canonical `about:blank` token.

use vstd::prelude::*;

use crate::text::str_eq;

verus! {

/// Path of the internal blank-page resource served by the host app.
pub const BLANK_PAGE_PATH: &'static str = "blank.html";

/// The canonical blank-page token.
pub const ABOUT_BLANK: &'static str = "about:blank";

/// Whether the string parses as a URL.
pub uninterp spec fn url_ok(s: Seq<char>) -> bool;

/// Relies on `url::Url::parse`: whether a string parses as a URL is a
/// function of the string alone.
#[verifier::external_body]
pub(crate) fn url_is_valid(s: &str) -> (r: bool)
    ensures
        r == url_ok(s@),
{
    url::Url::parse(s).is_ok()
}

/// Whether `s` ends with `suffix`.
pub open spec fn spec_ends_with(s: Seq<char>, suffix: Seq<char>) -> bool {
    s.len() >= suffix.len() && s.skip(s.len() - suffix.len()) == suffix
}

/// Whether the string ends with the given suffix, by characters.
pub fn str_ends_with(s: &str, suffix: &str) -> (r: bool)
    ensures
        r == spec_ends_with(s@, suffix@),
{
    let n: usize = s.unicode_len();
    let k: usize = suffix.unicode_len();
    if n < k {
        proof {
            assert(!spec_ends_with(s@, suffix@));
        }
        return false;
    }
    let base: usize = n - k;
    let mut i: usize = 0;
    while i < k
        invariant
            i <= k,
            k <= n,
            base == n - k,
            n == s@.len(),
            k == suffix@.len(),
            forall|j: int| 0 <= j < i ==> s@[base + j] == suffix@[j],
        decreases k - i,
    {
        let ca = s.get_char(base + i);
        let cb = suffix.get_char(i);
        if (ca as u32) != (cb as u32) {
            proof {
                assert(s@.skip(base as int)[i as int] == s@[base + i]);
            }
            return false;
        }
        i = i + 1;
    }
    proof {
        assert(s@.skip(base as int) =~= suffix@);
    }
    true
}

/// The canonical form of a loaded or intercepted URL: `about:blank` when
/// the URL's path names the internal blank-page resource, otherwise the
/// URL's own serialization.
pub open spec fn spec_normalized_url(path: Seq<char>, serialized: Seq<char>) -> Seq<char> {
    if spec_ends_with(path, BLANK_PAGE_PATH@) {
        ABOUT_BLANK@
    } else {
        serialized
    }
}

/// Normalizes a parsed URL, given its path and serialization.
pub fn normalize_tab_url(path: &str, serialized: &str) -> (r: String)
    ensures
        r@ == spec_normalized_url(path@, serialized@),
{
    if str_ends_with(path, BLANK_PAGE_PATH) {
        String::from_str(ABOUT_BLANK)
    } else {
        serialized.to_owned()
    }
}

/// Whether a requested URL means the internal blank page: the empty
/// string or the canonical blank token.
pub open spec fn spec_blank_request(u: Seq<char>) -> bool {
    u.len() == 0 || u == ABOUT_BLANK@
}

/// Whether the requested URL asks for the internal blank page.
pub fn is_blank_request(u: &str) -> (r: bool)
    ensures
        r == spec_blank_request(u@),
{
    u.is_empty() || str_eq(u, ABOUT_BLANK)
}

} // verus!
