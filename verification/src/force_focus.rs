use vstd::prelude::*;

use crate::text::view_option;

verus! {

/// The source indication sent with `_NET_ACTIVE_WINDOW`: a pager, which window managers
/// obey even when the request does not come from the focused application.
pub const SOURCE_INDICATION_PAGER: u32 = 2;

/// The error when no client window carries the title.
pub const NOT_LISTED: &'static str = "transform window not in _NET_CLIENT_LIST";

/// The position, in `names`, of the window that is searched last to first and matched
/// first: the last window whose name is `title`.
pub open spec fn is_last_named(names: Seq<Option<Seq<char>>>, title: Seq<char>, i: int) -> bool {
    &&& 0 <= i < names.len()
    &&& names[i] == Some(title)
    &&& forall|j: int| i < j < names.len() ==> names[j] != Some(title)
}

/// The last window of the client list whose name is `title`; windows whose name could
/// not be read are `None` and never match.
pub fn find_window_by_title(names: &Vec<Option<String>>, title: &str) -> (found: Option<usize>)
    ensures
        match found {
            Some(i) => is_last_named(names@.map_values(|n: Option<String>| view_option(n)), title@, i as int),
            None => forall|j: int| 0 <= j < names@.len() ==> view_option(#[trigger] names@[j]) != Some(title@),
        },
{
    let ghost ns = names@.map_values(|n: Option<String>| view_option(n));
    let t = String::from_str(title);
    let mut i: usize = names.len();
    while i > 0
        invariant
            i <= names@.len(),
            t@ == title@,
            ns == names@.map_values(|n: Option<String>| view_option(n)),
            forall|j: int| i <= j < names@.len() ==> view_option(#[trigger] names@[j]) != Some(title@),
        decreases i,
    {
        i = i - 1;
        match &names[i] {
            Some(n) => {
                if *n == t {
                    assert(ns[i as int] == view_option(names@[i as int]));
                    assert forall|j: int| i < j < ns.len() implies ns[j] != Some(title@) by {
                        assert(ns[j] == view_option(names@[j]));
                    }
                    return Some(i);
                }
            },
            None => {},
        }
    }
    None
}

/// The window to activate for `title`, given the client windows and the name read
/// for each (`None` where it could not be read), or the error when none matches.
pub fn activate_by_title(windows: &Vec<u32>, names: &Vec<Option<String>>, title: &str) -> (r: Result<u32, String>)
    requires
        windows@.len() == names@.len(),
    ensures
        match r {
            Ok(w) => exists|i: int| is_last_named(names@.map_values(|n: Option<String>| view_option(n)), title@, i)
                && w == windows@[i],
            Err(e) => e@ == NOT_LISTED@
                && forall|j: int| 0 <= j < names@.len() ==> view_option(#[trigger] names@[j]) != Some(title@),
        },
{
    match find_window_by_title(names, title) {
        Some(i) => Ok(windows[i]),
        None => Err(String::from_str(NOT_LISTED)),
    }
}

/// `more` is `names` with other entries inserted: `pos` places each entry of `names`,
/// in order, in `more`, and every entry of `more` that no entry of `names` was placed on
/// is unreadable or has another name than `title`.
pub open spec fn inserts_others(
    names: Seq<Option<Seq<char>>>,
    more: Seq<Option<Seq<char>>>,
    pos: Seq<int>,
    title: Seq<char>,
) -> bool {
    &&& pos.len() == names.len()
    &&& forall|k: int| 0 <= k < pos.len() ==> 0 <= #[trigger] pos[k] < more.len() && more[pos[k]] == names[k]
    &&& forall|k: int, l: int| 0 <= k < l < pos.len() ==> #[trigger] pos[k] < #[trigger] pos[l]
    &&& forall|j: int| 0 <= j < more.len() && (forall|k: int| 0 <= k < pos.len() ==> pos[k] != j)
        ==> #[trigger] more[j] != Some(title)
}

/// Adding windows that are unreadable or carry another name to the client list does not
/// change which window is activated for `title`, nor whether one is found at all.
pub proof fn lemma_lookup_ignores_other_windows(
    names: Seq<Option<Seq<char>>>,
    more: Seq<Option<Seq<char>>>,
    pos: Seq<int>,
    title: Seq<char>,
    windows: Seq<u32>,
    more_windows: Seq<u32>,
    i: int,
)
    requires
        inserts_others(names, more, pos, title),
        windows.len() == names.len(),
        more_windows.len() == more.len(),
        forall|k: int| 0 <= k < pos.len() ==> more_windows[#[trigger] pos[k]] == windows[k],
    ensures
        is_last_named(names, title, i) ==> is_last_named(more, title, pos[i]) && more_windows[pos[i]] == windows[i],
        (forall|j: int| 0 <= j < names.len() ==> names[j] != Some(title))
            ==> (forall|j: int| 0 <= j < more.len() ==> more[j] != Some(title)),
{
    if is_last_named(names, title, i) {
        assert(more[pos[i]] == names[i]);
        assert forall|j: int| pos[i] < j < more.len() implies more[j] != Some(title) by {
            if exists|k: int| 0 <= k < pos.len() && pos[k] == j {
                let k = choose|k: int| 0 <= k < pos.len() && pos[k] == j;
                if k <= i {
                    if k < i {
                        assert(pos[k] < pos[i]);
                    }
                } else {
                    assert(names[k] != Some(title));
                }
            }
        }
    }
    if forall|j: int| 0 <= j < names.len() ==> names[j] != Some(title) {
        assert forall|j: int| 0 <= j < more.len() implies more[j] != Some(title) by {
            if exists|k: int| 0 <= k < pos.len() && pos[k] == j {
                let k = choose|k: int| 0 <= k < pos.len() && pos[k] == j;
                assert(more[pos[k]] == names[k]);
            }
        }
    }
}

} // verus!
