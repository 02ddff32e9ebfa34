//! The page-injected behavior payloads.
//!
//! Both payloads are fixed, versioned script strings with exactly one
//! substitution point: the tab identifier, inserted as a JSON string
//! literal.  The debug-capture payload forwards console, error,
//! unhandled-rejection and render-sample records; the link-intercept
//! payload emits an open request for modifier-clicked links and
//! suppresses their default navigation, passing every other click
//! through unchanged.

use vstd::prelude::*;

verus! {

/// Everything of the debug-capture payload before the tab identifier.
pub const DEBUG_SCRIPT_PREFIX: &'static str = r#"
(() => {
  if (window.__CLAW_DEBUG_CAPTURE__) return;
  window.__CLAW_DEBUG_CAPTURE__ = true;

  const TAB_ID = "#;

/// Everything of the debug-capture payload after the tab identifier.
pub const DEBUG_SCRIPT_SUFFIX: &'static str = r#";
  const MAX_MESSAGE = 1200;
  const MAX_TEXT = 1600;

  const emit = (type, payload) => {
    try {
      const api = window.__TAURI__ && window.__TAURI__.event;
      if (!api || typeof api.emit !== 'function') return;
      api.emit('claw-debug', Object.assign({ type, tabId: TAB_ID }, payload));
    } catch {
      // Ignore emit failures.
    }
  };

  const normalizeWhitespace = (text) => String(text || '').replace(/\s+/g, ' ').trim();

  const truncate = (text, max) => {
    if (!text) return '';
    return text.length > max ? text.slice(0, max) + '...' : text;
  };

  const safeStringify = (value) => {
    if (typeof value === 'string') return value;
    if (value && typeof value === 'object' && value.name && value.message) {
      return normalizeWhitespace(`${value.name}: ${value.message} ${value.stack || ''}`);
    }
    try {
      return JSON.stringify(value);
    } catch {
      try {
        return String(value);
      } catch {
        return '[Unserializable]';
      }
    }
  };

  const wrapConsole = (level) => {
    const original = console[level];
    console[level] = (...args) => {
      try {
        const message = truncate(normalizeWhitespace(args.map(safeStringify).join(' ')), MAX_MESSAGE);
        emit('console', {
          level,
          message,
          url: location.href,
          title: document.title,
        });
      } catch {
        // Ignore console capture failures.
      }
      if (original) {
        original.apply(console, args);
      }
    };
  };

  ['log', 'info', 'warn', 'error', 'debug'].forEach(wrapConsole);

  window.addEventListener('error', (event) => {
    emit('error', {
      message: normalizeWhitespace(event.message || 'Script error'),
      filename: event.filename,
      lineno: event.lineno,
      colno: event.colno,
      stack: event.error && event.error.stack ? normalizeWhitespace(event.error.stack) : undefined,
      url: location.href,
      title: document.title,
    });
  });

  window.addEventListener('unhandledrejection', (event) => {
    emit('unhandledrejection', {
      reason: truncate(normalizeWhitespace(safeStringify(event.reason)), MAX_MESSAGE),
      url: location.href,
      title: document.title,
    });
  });

  const sendRender = () => {
    let textSample = '';
    try {
      if (document.body) {
        textSample = truncate(normalizeWhitespace(document.body.innerText || ''), MAX_TEXT);
      }
    } catch {
      // Ignore render capture failures.
    }
    emit('render', {
      url: location.href,
      title: document.title,
      readyState: document.readyState,
      viewport: { w: window.innerWidth, h: window.innerHeight, dpr: window.devicePixelRatio || 1 },
      scroll: { x: window.scrollX || 0, y: window.scrollY || 0 },
      textSample,
    });
  };

  if (document.readyState === 'complete' || document.readyState === 'interactive') {
    setTimeout(sendRender, 0);
  } else {
    document.addEventListener('DOMContentLoaded', () => setTimeout(sendRender, 0), { once: true });
  }
})();
"#;

/// Everything of the link-intercept payload before the tab identifier.
pub const LINK_SCRIPT_PREFIX: &'static str = r#"
(() => {
  if (window.__CLAW_LINK_INTERCEPT__) return;
  window.__CLAW_LINK_INTERCEPT__ = true;

  const TAB_ID = "#;

/// Everything of the link-intercept payload after the tab identifier.
pub const LINK_SCRIPT_SUFFIX: &'static str = r#";

  const emit = (url, reason) => {
    try {
      const api = window.__TAURI__ && window.__TAURI__.event;
      if (!api || typeof api.emit !== 'function') return false;
      api.emit('tab-open-request', { tabId: TAB_ID, url, reason });
      return true;
    } catch {
      return false;
    }
  };

  const resolveUrl = (href) => {
    try {
      return new URL(href, document.baseURI).toString();
    } catch {
      return null;
    }
  };

  const isMac = (() => {
    const platform = navigator.platform || '';
    const userAgent = navigator.userAgent || '';
    return /Mac|iPhone|iPad|iPod/.test(platform) || /Macintosh|Mac OS X/.test(userAgent);
  })();

  const handler = (event) => {
    if (!event) return;
    const wantsNewTab = event.shiftKey || (isMac && event.metaKey);
    if (!wantsNewTab) return;
    if (event.defaultPrevented) return;
    if (event.button !== 0) return;

    const target = event.target;
    if (!(target instanceof Element)) return;
    const link = target.closest('a[href]');
    if (!link) return;

    const href = link.getAttribute('href');
    if (!href) return;

    const url = resolveUrl(href);
    if (!url) return;

    if (!emit(url, 'shift-click')) return;

    event.preventDefault();
    event.stopPropagation();
  };

  document.addEventListener('click', handler, true);
})();
"#;

/// The JSON string literal (quotes and escapes) for a string value.
pub uninterp spec fn json_quoted(s: Seq<char>) -> Seq<char>;

/// Relies on `serde_json::to_string` on a string slice: it renders the
/// JSON string literal and cannot fail for a string, and the result is a
/// function of the characters alone.
#[verifier::external_body]
pub(crate) fn json_string_literal(s: &str) -> (r: String)
    ensures
        r@ == json_quoted(s@),
{
    match serde_json::to_string(s) {
        Ok(t) => t,
        Err(_) => String::new(),
    }
}

/// The debug-capture payload for a tab.
pub open spec fn spec_debug_script(id: Seq<char>) -> Seq<char> {
    DEBUG_SCRIPT_PREFIX@ + json_quoted(id) + DEBUG_SCRIPT_SUFFIX@
}

/// The link-intercept payload for a tab.
pub open spec fn spec_link_script(id: Seq<char>) -> Seq<char> {
    LINK_SCRIPT_PREFIX@ + json_quoted(id) + LINK_SCRIPT_SUFFIX@
}

/// Builds the debug-capture payload for a tab, when capture is enabled.
pub fn debug_init_script(tab_id: &str, capture_enabled: bool) -> (r: Option<String>)
    ensures
        capture_enabled ==> (r matches Some(t) && t@ == spec_debug_script(tab_id@)),
        !capture_enabled ==> r is None,
{
    if !capture_enabled {
        return None;
    }
    let lit = json_string_literal(tab_id);
    let mut r = String::from_str(DEBUG_SCRIPT_PREFIX);
    r.append(lit.as_str());
    r.append(DEBUG_SCRIPT_SUFFIX);
    Some(r)
}

/// Builds the link-intercept payload for a tab.
pub fn link_intercept_script(tab_id: &str) -> (r: String)
    ensures
        r@ == spec_link_script(tab_id@),
{
    let lit = json_string_literal(tab_id);
    let mut r = String::from_str(LINK_SCRIPT_PREFIX);
    r.append(lit.as_str());
    r.append(LINK_SCRIPT_SUFFIX);
    r
}


/// ASCII whitespace, as trimmed from the opt-in flag value.
pub open spec fn is_ascii_space(c: char) -> bool {
    c == ' ' || c == '\t' || c == '\n' || c == '\r'
}

/// The character with an ASCII upper-case letter lowered.
pub open spec fn ascii_lower(c: char) -> char {
    if 65 <= c as u32 && c as u32 <= 90 {
        (((c as u8) + 32) as u8) as char
    } else {
        c
    }
}

/// The sequence without its leading ASCII whitespace.
pub open spec fn spec_trim_front(s: Seq<char>) -> Seq<char>
    decreases s.len(),
{
    if s.len() > 0 && is_ascii_space(s[0]) {
        spec_trim_front(s.skip(1))
    } else {
        s
    }
}

/// The sequence without its trailing ASCII whitespace.
pub open spec fn spec_trim_back(s: Seq<char>) -> Seq<char>
    decreases s.len(),
{
    if s.len() > 0 && is_ascii_space(s.last()) {
        spec_trim_back(s.drop_last())
    } else {
        s
    }
}

/// The sequence without surrounding ASCII whitespace.
pub open spec fn spec_trimmed(s: Seq<char>) -> Seq<char> {
    spec_trim_back(spec_trim_front(s))
}

/// The sequence with every ASCII upper-case letter lowered.
pub open spec fn spec_lowered(s: Seq<char>) -> Seq<char> {
    s.map_values(|c: char| ascii_lower(c))
}

/// Whether an opt-in flag value counts as set: `1`, `true` or `yes`,
/// case-insensitively, ignoring surrounding ASCII whitespace.
pub open spec fn spec_is_truthy(v: Seq<char>) -> bool {
    let u = spec_lowered(spec_trimmed(v));
    u == "1"@ || u == "true"@ || u == "yes"@
}

fn is_space_char(c: char) -> (r: bool)
    ensures
        r == is_ascii_space(c),
{
    c == ' ' || c == '\t' || c == '\n' || c == '\r'
}

fn lower_char(c: char) -> (r: char)
    ensures
        r == ascii_lower(c),
{
    if 65 <= c as u32 && c as u32 <= 90 {
        ((c as u8) + 32) as char
    } else {
        c
    }
}

/// The flag value trimmed of surrounding ASCII whitespace and lowered,
/// as characters.
pub fn trimmed_lowered(s: &str) -> (r: Vec<char>)
    ensures
        r@ == spec_lowered(spec_trimmed(s@)),
{
    let n: usize = s.unicode_len();
    let mut start: usize = 0;
    proof {
        assert(s@.skip(0) =~= s@);
    }
    while start < n && is_space_char(s.get_char(start))
        invariant
            start <= n,
            n == s@.len(),
            spec_trim_front(s@) == spec_trim_front(s@.skip(start as int)),
        decreases n - start,
    {
        proof {
            assert(s@.skip(start as int)[0] == s@[start as int]);
            assert(s@.skip(start as int).skip(1) =~= s@.skip(start as int + 1));
        }
        start = start + 1;
    }
    let ghost front = s@.skip(start as int);
    proof {
        if start < n {
            assert(front[0] == s@[start as int]);
        }
        assert(spec_trim_front(s@) == front);
    }
    let mut end: usize = n;
    proof {
        assert(front.take(n - start) =~= front);
    }
    while end > start && is_space_char(s.get_char(end - 1))
        invariant
            start <= end <= n,
            n == s@.len(),
            front == s@.skip(start as int),
            spec_trim_back(front) == spec_trim_back(front.take(end - start)),
        decreases end,
    {
        proof {
            let t = front.take(end - start);
            assert(t.last() == s@[end - 1]);
            assert(t.drop_last() =~= front.take(end - 1 - start));
        }
        end = end - 1;
    }
    let ghost trimmed = front.take(end - start);
    proof {
        if end > start {
            assert(trimmed.last() == s@[end - 1]);
        }
        assert(spec_trim_back(front) == trimmed);
    }
    let mut r: Vec<char> = Vec::new();
    let mut i: usize = start;
    while i < end
        invariant
            start <= i <= end <= n,
            n == s@.len(),
            trimmed == s@.skip(start as int).take(end - start),
            r@.len() == i - start,
            forall|j: int| 0 <= j < i - start ==> r@[j] == ascii_lower(s@[start + j]),
        decreases end - i,
    {
        r.push(lower_char(s.get_char(i)));
        i = i + 1;
    }
    proof {
        assert forall|j: int| 0 <= j < trimmed.len() implies trimmed[j] == s@[start + j] by {}
        assert(r@ =~= spec_lowered(trimmed));
    }
    r
}

/// Whether the characters equal the string, one for one.
pub fn chars_eq_str(v: &Vec<char>, t: &str) -> (r: bool)
    ensures
        r == (v@ == t@),
{
    let n: usize = t.unicode_len();
    if v.len() != n {
        return false;
    }
    let mut i: usize = 0;
    while i < n
        invariant
            i <= n,
            n == t@.len(),
            v@.len() == n,
            forall|j: int| 0 <= j < i ==> v@[j] == t@[j],
        decreases n - i,
    {
        let c = t.get_char(i);
        if v[i] != c {
            proof {
                assert(v@[i as int] != t@[i as int]);
            }
            return false;
        }
        i = i + 1;
    }
    proof {
        assert(v@ =~= t@);
    }
    true
}

/// Whether debug capture is on: always in a debug build, otherwise only
/// when the opt-in flag value counts as set.
pub fn debug_capture_enabled(debug_build: bool, flag_value: Option<&str>) -> (r: bool)
    ensures
        r == (debug_build || (flag_value is Some && spec_is_truthy(flag_value->Some_0@))),
{
    if debug_build {
        return true;
    }
    match flag_value {
        Some(v) => {
            let u = trimmed_lowered(v);
            chars_eq_str(&u, "1") || chars_eq_str(&u, "true") || chars_eq_str(&u, "yes")
        },
        None => false,
    }
}

} // verus!
