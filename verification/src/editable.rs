use vstd::prelude::*;

use crate::text::view_option;

verus! {

/// How long the focus probe may take before the answer is "unknown", in milliseconds.
pub const PROBE_TIMEOUT_MS: u64 = 150;

/// How long a recorded focus verdict stays valid, in nanoseconds (ten seconds).
pub const VERDICT_LIFETIME_NS: u64 = 10_000_000_000;

/// UI Automation's control type of an edit control.
pub const UIA_EDIT_CONTROL_TYPE: i32 = 50004;

/// UI Automation's control type of a document control.
pub const UIA_DOCUMENT_CONTROL_TYPE: i32 = 50030;

/// What the focus listener last learnt about the focused element: whether it accepts
/// text (`None` when that could not be found out) and when, in nanoseconds on the
/// application's monotonic clock.
#[derive(PartialEq, Eq, Structural, Clone, Copy, Debug)]
pub struct FocusCache {
    pub verdict: Option<bool>,
    pub recorded_at: u64,
}

/// The focus cache before any focus change was seen: no verdict.
pub fn init() -> (c: FocusCache)
    ensures
        c.verdict is None,
        c.recorded_at == 0,
{
    FocusCache { verdict: None, recorded_at: 0 }
}

/// The time elapsed from `then` to `now`, zero when `now` is earlier.
pub open spec fn elapsed(then: u64, now: u64) -> int {
    if now >= then {
        now - then
    } else {
        0
    }
}

/// What the probe answers from `cache` at time `now`.
pub open spec fn spec_probe(cache: FocusCache, now: u64) -> Option<bool> {
    if elapsed(cache.recorded_at, now) > VERDICT_LIFETIME_NS {
        None
    } else {
        cache.verdict
    }
}

/// The recorded verdict, while it is at most ten seconds old; `None` once it is older.
pub fn probe(cache: &FocusCache, now: u64) -> (r: Option<bool>)
    ensures
        r == spec_probe(*cache, now),
{
    let age = if now >= cache.recorded_at { now - cache.recorded_at } else { 0 };
    if age > VERDICT_LIFETIME_NS {
        None
    } else {
        cache.verdict
    }
}

/// The cache after the listener inspected a newly focused element at time `now`.
pub fn record(verdict: Option<bool>, now: u64) -> (c: FocusCache)
    ensures
        c.verdict == verdict,
        c.recorded_at == now,
{
    FocusCache { verdict, recorded_at: now }
}

/// Probing returns the verdict just recorded for as long as it is fresh, and nothing
/// afterwards; before anything is recorded it returns nothing at all.
pub proof fn lemma_probe_returns_fresh_verdict(verdict: Option<bool>, at: u64, now: u64)
    ensures
        now >= at && now - at <= VERDICT_LIFETIME_NS ==> spec_probe(FocusCache { verdict, recorded_at: at }, now) == verdict,
        now >= at && now - at > VERDICT_LIFETIME_NS ==> spec_probe(FocusCache { verdict, recorded_at: at }, now) is None,
        spec_probe(FocusCache { verdict: None, recorded_at: 0 }, now) is None,
{
}

/// The answer of the focus probe given what it returned in time (`None` when it did
/// not answer within `PROBE_TIMEOUT_MS`).
pub fn is_focused_editable(answered: Option<Option<bool>>) -> (r: Option<bool>)
    ensures
        r == match answered {
            Some(v) => v,
            None => None,
        },
{
    match answered {
        Some(v) => v,
        None => None,
    }
}

/// Whether an accessibility state change is worth inspecting: a state being switched on
/// (`enabled == 1`) whose name, lowercased, is `focused`.
pub fn is_focus_gain(enabled: i32, state_lowercase: &str) -> (b: bool)
    ensures
        b == (enabled == 1 && state_lowercase@ == "focused"@),
{
    if enabled != 1 {
        return false;
    }
    String::from_str(state_lowercase) == String::from_str("focused")
}

/// The lowercase form of `s`, as `str::to_lowercase` maps it (full Unicode case mapping).
pub uninterp spec fn lowercase(s: Seq<char>) -> Seq<char>;

/// Calls `str::to_lowercase`; claims that the result is `lowercase` of the argument.
#[verifier::external_body]
fn to_lowercase(s: &str) -> (r: String)
    ensures
        r@ == lowercase(s@),
{
    s.to_lowercase()
}

/// Whether a state change event, named as its state prints, is a focus gain.
pub fn focus_gained(enabled: i32, state_name: &str) -> (b: bool)
    ensures
        b == (enabled == 1 && lowercase(state_name@) == "focused"@),
{
    if enabled != 1 {
        return false;
    }
    let lowered = to_lowercase(state_name);
    is_focus_gain(enabled, lowered.as_str())
}

/// Some interface, of those that could be listed, is `EditableText`.
pub open spec fn offers_editable_text(interfaces: Option<Vec<bool>>) -> bool {
    match interfaces {
        Some(v) => v@.contains(true),
        None => false,
    }
}

/// Whether an element accepts text, from its state set holding `Editable` and from the
/// interfaces it offers (`true` for `EditableText`), when those could be listed.
pub fn inspect(state_editable: bool, interfaces: &Option<Vec<bool>>) -> (b: bool)
    ensures
        b == (state_editable || offers_editable_text(*interfaces)),
{
    if state_editable {
        return true;
    }
    match interfaces {
        None => false,
        Some(v) => {
            let mut i: usize = 0;
            while i < v.len()
                invariant
                    i <= v@.len(),
                    *interfaces == Some(*v),
                    !state_editable,
                    forall|j: int| 0 <= j < i ==> v@[j] == false,
                decreases v@.len() - i,
            {
                if v[i] {
                    assert(v@[i as int] == true);
                    return true;
                }
                i = i + 1;
            }
            false
        },
    }
}

/// What UI Automation reports of the focused element.
#[derive(PartialEq, Eq, Structural, Clone, Copy, Debug)]
pub struct UiaElement {
    pub enabled: bool,
    pub control_type: i32,
    /// The read-only flag of its value pattern, where it has one and the flag could be read.
    pub value_read_only: Option<bool>,
    pub has_text_pattern: bool,
}

/// Whether the focused element accepts text, by UI Automation.
pub open spec fn spec_uia_verdict(e: UiaElement) -> Option<bool> {
    if !e.enabled {
        Some(false)
    } else if e.control_type == UIA_EDIT_CONTROL_TYPE || e.control_type == UIA_DOCUMENT_CONTROL_TYPE {
        match e.value_read_only {
            Some(ro) => Some(!ro),
            None => Some(true),
        }
    } else {
        match e.value_read_only {
            Some(ro) => Some(!ro),
            None => if e.has_text_pattern {
                Some(false)
            } else {
                None
            },
        }
    }
}

/// Whether the focused element accepts text, by what UI Automation reports of it:
/// disabled elements do not; edit and document controls do unless read-only; other
/// elements by their value pattern, else not when they only offer text to read;
/// unknown otherwise.
pub fn uia_verdict(e: &UiaElement) -> (r: Option<bool>)
    ensures
        r == spec_uia_verdict(*e),
{
    if !e.enabled {
        return Some(false);
    }
    if e.control_type == UIA_EDIT_CONTROL_TYPE || e.control_type == UIA_DOCUMENT_CONTROL_TYPE {
        return match e.value_read_only {
            Some(ro) => Some(!ro),
            None => Some(true),
        };
    }
    match e.value_read_only {
        Some(ro) => Some(!ro),
        None => if e.has_text_pattern {
            Some(false)
        } else {
            None
        },
    }
}

/// UI Automation's verdict follows the value pattern: an enabled element whose read-only
/// flag could be read accepts text exactly when it is not read-only, whatever its control
/// type, so a writable edit or document control is never reported as refusing text. An
/// enabled edit or document control without a readable flag accepts text; a disabled
/// element never does; and an element is reported as accepting text only in those cases.
pub proof fn lemma_uia_verdict_follows_value_pattern(e: UiaElement)
    ensures
        e.enabled && e.value_read_only is Some
            ==> spec_uia_verdict(e) == Some(!e.value_read_only->0),
        e.enabled && (e.control_type == 50004 || e.control_type == 50030) && e.value_read_only == Some(false)
            ==> spec_uia_verdict(e) == Some(true),
        e.enabled && (e.control_type == 50004 || e.control_type == 50030) && e.value_read_only is None
            ==> spec_uia_verdict(e) == Some(true),
        !e.enabled ==> spec_uia_verdict(e) == Some(false),
        spec_uia_verdict(e) == Some(true) ==> e.enabled && (e.value_read_only == Some(false)
            || ((e.control_type == 50004 || e.control_type == 50030) && e.value_read_only is None)),
        spec_uia_verdict(e) is None ==> e.enabled && e.value_read_only is None && !e.has_text_pattern
            && e.control_type != 50004 && e.control_type != 50030,
{
}

/// What the macOS accessibility API reports of the focused element.
#[derive(PartialEq, Eq, Debug)]
pub struct AxElement {
    /// Its enabled attribute, where it has one.
    pub enabled: Option<bool>,
    /// Its role attribute, where it has one.
    pub role: Option<String>,
    /// Whether it has a selected-text attribute.
    pub has_selected_text: bool,
}

/// The roles of elements that accept text.
pub open spec fn is_text_role(role: Seq<char>) -> bool {
    role == "AXTextField"@ || role == "AXTextArea"@ || role == "AXComboBox"@
}

/// The roles of elements that only show content.
pub open spec fn is_static_role(role: Seq<char>) -> bool {
    role == "AXStaticText"@ || role == "AXLink"@ || role == "AXImage"@ || role == "AXHeading"@
}

/// Whether the focused element accepts text, by the macOS accessibility API.
pub open spec fn spec_ax_verdict(trusted: bool, focused: Option<(Option<bool>, Option<Seq<char>>, bool)>) -> Option<bool> {
    if !trusted {
        None
    } else {
        match focused {
            None => None,
            Some((enabled, role, has_selected_text)) => if enabled == Some(false) {
                Some(false)
            } else {
                match role {
                    None => None,
                    Some(r) => if is_text_role(r) {
                        Some(true)
                    } else if is_static_role(r) {
                        Some(false)
                    } else if has_selected_text {
                        Some(true)
                    } else {
                        None
                    },
                }
            },
        }
    }
}

/// The macOS verdict, by role: with accessibility permission and an element that is not
/// disabled, text fields, text areas and combo boxes accept text and static text, links,
/// images and headings do not, whatever else the element reports; a disabled element never
/// accepts text; without permission nothing is known.
pub proof fn lemma_ax_verdict_by_role(enabled: Option<bool>, role: Seq<char>, has_selected_text: bool)
    ensures
        enabled != Some(false) && (role == "AXTextField"@ || role == "AXTextArea"@ || role == "AXComboBox"@)
            ==> spec_ax_verdict(true, Some((enabled, Some(role), has_selected_text))) == Some(true),
        enabled != Some(false) && (role == "AXStaticText"@ || role == "AXLink"@ || role == "AXImage"@
            || role == "AXHeading"@)
            ==> spec_ax_verdict(true, Some((enabled, Some(role), has_selected_text))) == Some(false),
        spec_ax_verdict(true, Some((Some(false), Some(role), has_selected_text))) == Some(false),
        spec_ax_verdict(false, Some((enabled, Some(role), has_selected_text))) is None,
{
    reveal_strlit("AXTextField");
    reveal_strlit("AXTextArea");
    reveal_strlit("AXComboBox");
    reveal_strlit("AXStaticText");
    reveal_strlit("AXLink");
    reveal_strlit("AXImage");
    reveal_strlit("AXHeading");
    if is_static_role(role) {
        assert(role.len() != 11 && role.len() != 10);
        assert(!is_text_role(role));
    }
}

/// An element, by the values the verdict reads.
pub open spec fn ax_view(e: AxElement) -> (Option<bool>, Option<Seq<char>>, bool) {
    (e.enabled, view_option(e.role), e.has_selected_text)
}

fn is_one_of(s: &String, options: &[&str]) -> (b: bool)
    ensures
        b == exists|i: int| 0 <= i < options@.len() && options@[i]@ == s@,
{
    let mut i: usize = 0;
    while i < options.len()
        invariant
            i <= options@.len(),
            forall|j: int| 0 <= j < i ==> options@[j]@ != s@,
        decreases options@.len() - i,
    {
        if String::from_str(options[i]) == *s {
            return true;
        }
        i = i + 1;
    }
    false
}

/// Whether the focused element accepts text, by the macOS accessibility API: unknown
/// without accessibility permission or a focused element; disabled elements do not;
/// text fields, areas and combo boxes do; static text, links, images and headings do
/// not; other elements do when they expose a selection, and are unknown otherwise.
pub fn ax_verdict(trusted: bool, focused: &Option<AxElement>) -> (r: Option<bool>)
    ensures
        r == spec_ax_verdict(trusted, match focused {
            Some(e) => Some(ax_view(*e)),
            None => None,
        }),
{
    if !trusted {
        return None;
    }
    match focused {
        None => None,
        Some(e) => {
            if e.enabled == Some(false) {
                return Some(false);
            }
            match &e.role {
                None => None,
                Some(role) => {
                    let text_roles: [&str; 3] = ["AXTextField", "AXTextArea", "AXComboBox"];
                    let static_roles: [&str; 4] = ["AXStaticText", "AXLink", "AXImage", "AXHeading"];
                    let is_text = is_one_of(role, &text_roles);
                    let is_static = is_one_of(role, &static_roles);
                    proof {
                        assert(is_text == is_text_role(role@)) by {
                            if is_text_role(role@) {
                                if role@ == "AXTextField"@ { assert(text_roles@[0]@ == role@); }
                                else if role@ == "AXTextArea"@ { assert(text_roles@[1]@ == role@); }
                                else { assert(text_roles@[2]@ == role@); }
                            }
                        }
                        assert(is_static == is_static_role(role@)) by {
                            if is_static_role(role@) {
                                if role@ == "AXStaticText"@ { assert(static_roles@[0]@ == role@); }
                                else if role@ == "AXLink"@ { assert(static_roles@[1]@ == role@); }
                                else if role@ == "AXImage"@ { assert(static_roles@[2]@ == role@); }
                                else { assert(static_roles@[3]@ == role@); }
                            }
                        }
                    }
                    if is_text {
                        Some(true)
                    } else if is_static {
                        Some(false)
                    } else if e.has_selected_text {
                        Some(true)
                    } else {
                        None
                    }
                },
            }
        },
    }
}

} // verus!
