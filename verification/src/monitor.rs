use vstd::prelude::*;

verus! {

/// Where a monitor sits on the virtual desktop, in physical pixels.
#[derive(PartialEq, Eq, Structural, Clone, Copy, Debug)]
pub struct MonitorArea {
    pub x: i32,
    pub y: i32,
    pub width: i32,
    pub height: i32,
}

/// The point `(px, py)` lies on monitor `m` (left and top edges included, right and
/// bottom edges excluded).
pub open spec fn shows_point(m: MonitorArea, px: int, py: int) -> bool {
    &&& m.x <= px < m.x + m.width
    &&& m.y <= py < m.y + m.height
}

/// Whether the point `(px, py)` lies on monitor `m`.
pub fn monitor_contains(m: &MonitorArea, px: i32, py: i32) -> (b: bool)
    ensures
        b == shows_point(*m, px as int, py as int),
{
    let (x, y, w, h) = (m.x as i64, m.y as i64, m.width as i64, m.height as i64);
    let (px, py) = (px as i64, py as i64);
    px >= x && px < x + w && py >= y && py < y + h
}

/// The first monitor, in the order given, that shows the point `(px, py)`.
pub fn monitor_at(monitors: &Vec<MonitorArea>, px: i32, py: i32) -> (found: Option<usize>)
    ensures
        match found {
            Some(i) => i < monitors@.len() && shows_point(monitors@[i as int], px as int, py as int)
                && forall|j: int| 0 <= j < i ==> !shows_point(#[trigger] monitors@[j], px as int, py as int),
            None => forall|j: int| 0 <= j < monitors@.len() ==> !shows_point(#[trigger] monitors@[j], px as int, py as int),
        },
{
    let mut i: usize = 0;
    while i < monitors.len()
        invariant
            i <= monitors@.len(),
            forall|j: int| 0 <= j < i ==> !shows_point(#[trigger] monitors@[j], px as int, py as int),
        decreases monitors@.len() - i,
    {
        if monitor_contains(&monitors[i], px, py) {
            return Some(i);
        }
        i = i + 1;
    }
    None
}

/// The monitor under the cursor, where the cursor position is known and some monitor
/// shows it; the caller falls back to the primary monitor otherwise.
pub fn active_monitor(monitors: &Vec<MonitorArea>, cursor: Option<(i32, i32)>) -> (found: Option<usize>)
    ensures
        match cursor {
            None => found is None,
            Some((px, py)) => match found {
                Some(i) => i < monitors@.len() && shows_point(monitors@[i as int], px as int, py as int)
                    && forall|j: int| 0 <= j < i ==> !shows_point(#[trigger] monitors@[j], px as int, py as int),
                None => forall|j: int| 0 <= j < monitors@.len() ==> !shows_point(#[trigger] monitors@[j], px as int, py as int),
            },
        },
{
    match cursor {
        None => None,
        Some((px, py)) => monitor_at(monitors, px, py),
    }
}

} // verus!
