use vstd::prelude::*;

verus! {

/// A rectangle of whole pixels, as cairo's `RectangleInt` holds it.
#[derive(PartialEq, Eq, Structural, Clone, Copy, Debug)]
pub struct Rect {
    pub x: i32,
    pub y: i32,
    pub width: i32,
    pub height: i32,
}

/// `k` is the least non-negative integer whose square is at least `n`.
pub open spec fn is_ceil_sqrt(n: int, k: int) -> bool {
    &&& k >= 0
    &&& k * k >= n
    &&& (k == 0 || (k - 1) * (k - 1) < n)
}

/// The square root of `n`, rounded up.
pub open spec fn ceil_sqrt(n: int) -> int {
    choose|k: int| is_ceil_sqrt(n, k)
}

proof fn lemma_ceil_sqrt_unique(n: int, a: int, b: int)
    requires
        is_ceil_sqrt(n, a),
        is_ceil_sqrt(n, b),
    ensures
        a == b,
{
    if a < b {
        assert((b - 1) * (b - 1) >= a * a) by (nonlinear_arith)
            requires
                0 <= a <= b - 1,
        ;
    } else if b < a {
        assert((a - 1) * (a - 1) >= b * b) by (nonlinear_arith)
            requires
                0 <= b <= a - 1,
        ;
    }
}

/// The square root of `n`, rounded up.
pub fn ceil_sqrt_of(n: i32) -> (k: i32)
    requires
        n >= 0,
    ensures
        k == ceil_sqrt(n as int),
        is_ceil_sqrt(n as int, k as int),
{
    let mut lo: i64 = 0;
    let mut hi: i64 = 46341;
    assert(46341 * 46341 > i32::MAX) by (nonlinear_arith);
    while lo < hi
        invariant
            0 <= lo <= hi <= 46341,
            hi * hi >= n,
            lo == 0 || (lo - 1) * (lo - 1) < n,
        decreases hi - lo,
    {
        let mid = lo + (hi - lo) / 2;
        assert(0 <= mid * mid <= 46341 * 46341) by (nonlinear_arith)
            requires
                0 <= mid <= 46341,
        ;
        if mid * mid >= n as i64 {
            hi = mid;
        } else {
            lo = mid + 1;
        }
    }
    proof {
        assert(is_ceil_sqrt(n as int, lo as int));
        let c = ceil_sqrt(n as int);
        assert(is_ceil_sqrt(n as int, c));
        lemma_ceil_sqrt_unique(n as int, c, lo as int);
    }
    lo as i32
}

/// How far in from each side the strip whose vertical distance from the corner centre
/// is `dy` starts.
pub open spec fn inset(r: int, dy: int) -> int {
    r - ceil_sqrt(r * r - dy * dy)
}

/// The strip drawn on `row` for a corner row at vertical distance `dy` from the corner
/// centre: one pixel high, spanning the width left between the two rounded corners, or
/// nothing where that width is not positive.
pub open spec fn corner_strip(w: int, r: int, dy: int, row: int) -> Seq<Rect> {
    let x = inset(r, dy);
    let width = w - 2 * x;
    if width > 0 {
        seq![Rect { x: x as i32, y: row as i32, width: width as i32, height: 1 }]
    } else {
        seq![]
    }
}

/// The strips of the top rows `0 .. k`.
pub open spec fn top_strips(w: int, r: int, k: int) -> Seq<Rect>
    decreases k,
{
    if k <= 0 {
        seq![]
    } else {
        top_strips(w, r, k - 1) + corner_strip(w, r, r - (k - 1), k - 1)
    }
}

/// The strips of the bottom rows `h - r .. h - r + k`.
pub open spec fn bottom_strips(w: int, h: int, r: int, k: int) -> Seq<Rect>
    decreases k,
{
    if k <= 0 {
        seq![]
    } else {
        bottom_strips(w, h, r, k - 1) + corner_strip(w, r, k, h - r + (k - 1))
    }
}

/// The band between the rounded rows, where it has any height.
pub open spec fn middle_band(w: int, h: int, r: int) -> Seq<Rect> {
    if h - 2 * r > 0 {
        seq![Rect { x: 0, y: r as i32, width: w as i32, height: (h - 2 * r) as i32 }]
    } else {
        seq![]
    }
}

/// The region of a `w` by `h` window with corners rounded to radius `r`, as a list of
/// rectangles; `None` where the window keeps its plain rectangular shape.
pub open spec fn rounded_region(w: int, h: int, r: int) -> Option<Seq<Rect>> {
    if r <= 0 || w < 2 * r || h < 2 * r {
        None
    } else {
        Some(top_strips(w, r, r) + middle_band(w, h, r) + bottom_strips(w, h, r, r))
    }
}

/// The inputs on which the `i32` arithmetic of the shape (twice the radius, and the
/// squared radius where the corners fit) does not overflow.
pub open spec fn shape_fits(w: i32, h: i32, r: i32) -> bool {
    r <= 0 || (2 * r <= i32::MAX && (w < 2 * r || h < 2 * r || r * r <= i32::MAX))
}

proof fn lemma_ceil_sqrt_search(n: int, j: int)
    requires
        n >= 0,
        0 <= j <= n + 1,
        j == 0 || (j - 1) * (j - 1) < n,
    ensures
        is_ceil_sqrt(n, ceil_sqrt(n)),
    decreases n + 1 - j,
{
    if j * j >= n {
        assert(is_ceil_sqrt(n, j));
    } else {
        assert(j < n) by (nonlinear_arith)
            requires
                j * j < n,
                0 <= j,
        ;
        lemma_ceil_sqrt_search(n, j + 1);
    }
}

proof fn lemma_inset_bounds(r: int, dy: int)
    requires
        1 <= dy <= r,
    ensures
        0 <= inset(r, dy) <= r,
{
    let n = r * r - dy * dy;
    assert(0 <= n <= r * r) by (nonlinear_arith)
        requires
            1 <= dy <= r,
            n == r * r - dy * dy,
    ;
    lemma_ceil_sqrt_search(n, 0);
    let k = ceil_sqrt(n);
    if k > r {
        assert((k - 1) * (k - 1) >= r * r) by (nonlinear_arith)
            requires
                0 <= r <= k - 1,
        ;
    }
}

fn strip(w: i32, r: i32, dy: i32, row: i32) -> (s: Option<Rect>)
    requires
        1 <= dy <= r,
        r * r <= i32::MAX,
        w >= 2 * r,
        0 <= row,
    ensures
        match s {
            Some(rect) => corner_strip(w as int, r as int, dy as int, row as int) == seq![rect],
            None => corner_strip(w as int, r as int, dy as int, row as int) == Seq::<Rect>::empty(),
        },
{
    assert(0 <= dy * dy <= r * r <= i32::MAX) by (nonlinear_arith)
        requires
            1 <= dy <= r,
            r * r <= i32::MAX,
    ;
    let n = r * r - dy * dy;
    let dx = ceil_sqrt_of(n);
    proof {
        lemma_inset_bounds(r as int, dy as int);
    }
    let x_start = r - dx;
    let strip_w = w - 2 * x_start;
    if strip_w > 0 {
        Some(Rect { x: x_start, y: row, width: strip_w, height: 1 })
    } else {
        None
    }
}

/// The rectangles that make up a `w` by `h` window with corners rounded to radius `r`,
/// or `None` where the window is left rectangular (no radius, or a window too small for
/// the corners).
pub fn apply_rounded_shape(w: i32, h: i32, r: i32) -> (region: Option<Vec<Rect>>)
    requires
        shape_fits(w, h, r),
    ensures
        match region {
            Some(v) => rounded_region(w as int, h as int, r as int) == Some(v@),
            None => rounded_region(w as int, h as int, r as int) is None,
        },
{
    if r <= 0 || w < 2 * r || h < 2 * r {
        return None;
    }
    let mut rects: Vec<Rect> = Vec::new();
    let mut y: i32 = 0;
    while y < r
        invariant
            0 <= y <= r,
            r * r <= i32::MAX,
            w >= 2 * r,
            h >= 2 * r,
            rects@ == top_strips(w as int, r as int, y as int),
        decreases r - y,
    {
        match strip(w, r, r - y, y) {
            Some(rect) => rects.push(rect),
            None => {},
        }
        y = y + 1;
    }
    if h - 2 * r > 0 {
        rects.push(Rect { x: 0, y: r, width: w, height: h - 2 * r });
    }
    let ghost upper = rects@;
    assert(upper == top_strips(w as int, r as int, r as int) + middle_band(w as int, h as int, r as int));
    let mut y: i32 = 0;
    while y < r
        invariant
            0 <= y <= r,
            r * r <= i32::MAX,
            w >= 2 * r,
            h >= 2 * r,
            rects@ == upper + bottom_strips(w as int, h as int, r as int, y as int),
        decreases r - y,
    {
        match strip(w, r, y + 1, h - r + y) {
            Some(rect) => rects.push(rect),
            None => {},
        }
        proof {
            assert(bottom_strips(w as int, h as int, r as int, y + 1) == bottom_strips(w as int, h as int, r as int, y as int) + corner_strip(w as int, r as int, y + 1, h - r + y));
        }
        y = y + 1;
    }
    Some(rects)
}

/// `rect` lies inside a `w` by `h` window, is not empty, and leaves margins of equal
/// width on its left and right.
pub open spec fn centred_inside(rect: Rect, w: int, h: int) -> bool {
    &&& 0 <= rect.x
    &&& rect.width > 0
    &&& rect.x + rect.width <= w
    &&& rect.x + rect.width == w - rect.x
    &&& 0 <= rect.y
    &&& rect.height > 0
    &&& rect.y + rect.height <= h
}

/// The shape is rounded: a positive radius, a window at least two radii wide and high,
/// and a squared radius within `i32`.
pub open spec fn rounds(w: i32, h: i32, r: i32) -> bool {
    r > 0 && w >= 2 * r && h >= 2 * r && r * r <= i32::MAX
}

proof fn lemma_corner_strip_inside(w: int, h: int, r: int, dy: int, row: int)
    requires
        1 <= r,
        1 <= dy <= r,
        w >= 2 * r,
        w <= i32::MAX,
        0 <= row < h,
        h <= i32::MAX,
    ensures
        forall|i: int| 0 <= i < corner_strip(w, r, dy, row).len()
            ==> centred_inside(#[trigger] corner_strip(w, r, dy, row)[i], w, h),
        corner_strip(w, r, dy, row).len() <= 1,
        forall|i: int| 0 <= i < corner_strip(w, r, dy, row).len()
            ==> (#[trigger] corner_strip(w, r, dy, row)[i]).y == row,
{
    lemma_inset_bounds(r, dy);
}

proof fn lemma_top_strips(w: int, h: int, r: int, k: int)
    requires
        1 <= r,
        w >= 2 * r,
        h >= 2 * r,
        w <= i32::MAX,
        h <= i32::MAX,
        0 <= k <= r,
    ensures
        forall|i: int| 0 <= i < top_strips(w, r, k).len()
            ==> centred_inside(#[trigger] top_strips(w, r, k)[i], w, h),
        forall|rect: Rect| #[trigger] top_strips(w, r, k).contains(rect)
            <==> (0 <= rect.y < k && corner_strip(w, r, r - rect.y, rect.y as int) == seq![rect]),
    decreases k,
{
    if k > 0 {
        lemma_top_strips(w, h, r, k - 1);
        lemma_corner_strip_inside(w, h, r, r - (k - 1), k - 1);
        let prev = top_strips(w, r, k - 1);
        let last = corner_strip(w, r, r - (k - 1), k - 1);
        assert(top_strips(w, r, k) == prev + last);
        assert forall|i: int| 0 <= i < top_strips(w, r, k).len()
            implies centred_inside(#[trigger] top_strips(w, r, k)[i], w, h) by {
            if i >= prev.len() {
                assert(top_strips(w, r, k)[i] == last[i - prev.len()]);
            }
        }
        assert forall|rect: Rect| #[trigger] top_strips(w, r, k).contains(rect)
            <==> (0 <= rect.y < k && corner_strip(w, r, r - rect.y, rect.y as int) == seq![rect]) by {
            if top_strips(w, r, k).contains(rect) {
                let i = choose|i: int| 0 <= i < top_strips(w, r, k).len() && top_strips(w, r, k)[i] == rect;
                if i >= prev.len() {
                    assert(last[i - prev.len()] == rect);
                    assert(last.len() == 1);
                    assert(last =~= seq![rect]);
                } else {
                    assert(prev[i] == rect);
                    assert(prev.contains(rect));
                }
            }
            if 0 <= rect.y < k && corner_strip(w, r, r - rect.y, rect.y as int) == seq![rect] {
                if rect.y == k - 1 {
                    assert(top_strips(w, r, k)[prev.len() as int] == rect);
                } else {
                    assert(prev.contains(rect));
                    let i = choose|i: int| 0 <= i < prev.len() && prev[i] == rect;
                    assert(top_strips(w, r, k)[i] == rect);
                }
            }
        }
    }
}

proof fn lemma_bottom_strips(w: int, h: int, r: int, k: int)
    requires
        1 <= r,
        w >= 2 * r,
        h >= 2 * r,
        w <= i32::MAX,
        h <= i32::MAX,
        0 <= k <= r,
    ensures
        forall|i: int| 0 <= i < bottom_strips(w, h, r, k).len()
            ==> centred_inside(#[trigger] bottom_strips(w, h, r, k)[i], w, h),
        forall|rect: Rect| #[trigger] bottom_strips(w, h, r, k).contains(rect)
            <==> (h - r <= rect.y < h - r + k
                && corner_strip(w, r, rect.y - (h - r) + 1, rect.y as int) == seq![rect]),
    decreases k,
{
    if k > 0 {
        lemma_bottom_strips(w, h, r, k - 1);
        lemma_corner_strip_inside(w, h, r, k, h - r + (k - 1));
        let prev = bottom_strips(w, h, r, k - 1);
        let last = corner_strip(w, r, k, h - r + (k - 1));
        assert(bottom_strips(w, h, r, k) == prev + last);
        assert forall|i: int| 0 <= i < bottom_strips(w, h, r, k).len()
            implies centred_inside(#[trigger] bottom_strips(w, h, r, k)[i], w, h) by {
            if i >= prev.len() {
                assert(bottom_strips(w, h, r, k)[i] == last[i - prev.len()]);
            }
        }
        assert forall|rect: Rect| #[trigger] bottom_strips(w, h, r, k).contains(rect)
            <==> (h - r <= rect.y < h - r + k
                && corner_strip(w, r, rect.y - (h - r) + 1, rect.y as int) == seq![rect]) by {
            if bottom_strips(w, h, r, k).contains(rect) {
                let i = choose|i: int| 0 <= i < bottom_strips(w, h, r, k).len() && bottom_strips(w, h, r, k)[i] == rect;
                if i >= prev.len() {
                    assert(last[i - prev.len()] == rect);
                    assert(last.len() == 1);
                    assert(last =~= seq![rect]);
                } else {
                    assert(prev[i] == rect);
                    assert(prev.contains(rect));
                }
            }
            if h - r <= rect.y < h - r + k && corner_strip(w, r, rect.y - (h - r) + 1, rect.y as int) == seq![rect] {
                if rect.y == h - r + k - 1 {
                    assert(bottom_strips(w, h, r, k)[prev.len() as int] == rect);
                } else {
                    assert(prev.contains(rect));
                    let i = choose|i: int| 0 <= i < prev.len() && prev[i] == rect;
                    assert(bottom_strips(w, h, r, k)[i] == rect);
                }
            }
        }
    }
}

/// Every rectangle of a rounded window shape lies inside the window, is not empty, and
/// is centred horizontally: the shape is symmetric from left to right.
pub proof fn lemma_region_inside_window(w: i32, h: i32, r: i32)
    requires
        rounds(w, h, r),
    ensures
        rounded_region(w as int, h as int, r as int) is Some,
        forall|i: int| 0 <= i < rounded_region(w as int, h as int, r as int)->0.len()
            ==> centred_inside(#[trigger] rounded_region(w as int, h as int, r as int)->0[i], w as int, h as int),
{
    let (w, h, r) = (w as int, h as int, r as int);
    lemma_top_strips(w, h, r, r);
    lemma_bottom_strips(w, h, r, r);
    let top = top_strips(w, r, r);
    let mid = middle_band(w, h, r);
    let bot = bottom_strips(w, h, r, r);
    let all = rounded_region(w, h, r)->0;
    assert(all == top + mid + bot);
    assert forall|i: int| 0 <= i < all.len() implies centred_inside(#[trigger] all[i], w, h) by {
        if i < top.len() {
            assert(all[i] == top[i]);
        } else if i < top.len() + mid.len() {
            assert(all[i] == mid[i - top.len()]);
        } else {
            assert(all[i] == bot[i - top.len() - mid.len()]);
        }
    }
}

/// The rounded shape is symmetric from top to bottom: each strip on a row of the top
/// corners has a strip of the same extent on the mirrored row of the bottom corners.
pub proof fn lemma_region_mirrors_vertically(w: i32, h: i32, r: i32, rect: Rect)
    requires
        rounds(w, h, r),
        0 <= rect.y < r,
    ensures
        rounded_region(w as int, h as int, r as int)->0.contains(rect)
            <==> rounded_region(w as int, h as int, r as int)->0.contains(
                Rect { y: (h - 1 - rect.y) as i32, ..rect },
            ),
{
    let (wi, hi, ri) = (w as int, h as int, r as int);
    lemma_top_strips(wi, hi, ri, ri);
    lemma_bottom_strips(wi, hi, ri, ri);
    let top = top_strips(wi, ri, ri);
    let mid = middle_band(wi, hi, ri);
    let bot = bottom_strips(wi, hi, ri, ri);
    let all = rounded_region(wi, hi, ri)->0;
    assert(all == top + mid + bot);
    let m = Rect { y: (h - 1 - rect.y) as i32, ..rect };
    assert forall|x: Rect| #[trigger] all.contains(x) <==> (top.contains(x) || mid.contains(x) || bot.contains(x)) by {
        if all.contains(x) {
            let i = choose|i: int| 0 <= i < all.len() && all[i] == x;
            if i < top.len() {
                assert(top[i] == x);
            } else if i < top.len() + mid.len() {
                assert(mid[i - top.len()] == x);
            } else {
                assert(bot[i - top.len() - mid.len()] == x);
            }
        }
        if top.contains(x) {
            let i = choose|i: int| 0 <= i < top.len() && top[i] == x;
            assert(all[i] == x);
        }
        if mid.contains(x) {
            let i = choose|i: int| 0 <= i < mid.len() && mid[i] == x;
            assert(all[top.len() + i] == x);
        }
        if bot.contains(x) {
            let i = choose|i: int| 0 <= i < bot.len() && bot[i] == x;
            assert(all[top.len() + mid.len() + i] == x);
        }
    }
    if all.contains(rect) {
        assert(!mid.contains(rect));
        assert(!bot.contains(rect));
        assert(top.contains(rect));
        assert(corner_strip(wi, ri, ri - rect.y, rect.y as int) == seq![rect]);
        assert(corner_strip(wi, ri, ri - rect.y, rect.y as int)[0] == rect);
        assert(corner_strip(wi, ri, ri - rect.y, m.y as int)[0] == m);
        assert(corner_strip(wi, ri, ri - rect.y, m.y as int) =~= seq![m]);
        assert(bot.contains(m));
    }
    if all.contains(m) {
        if mid.contains(m) {
            assert(mid.len() == 1);
            assert(mid[0] == m);
        }
        assert(!mid.contains(m));
        assert(!top.contains(m));
        assert(bot.contains(m));
        assert(corner_strip(wi, ri, m.y - (hi - ri) + 1, m.y as int) == seq![m]);
        assert(corner_strip(wi, ri, m.y - (hi - ri) + 1, m.y as int)[0] == m);
        assert(corner_strip(wi, ri, ri - rect.y, rect.y as int)[0] == rect);
        assert(corner_strip(wi, ri, ri - rect.y, rect.y as int) =~= seq![rect]);
        assert(top.contains(rect));
    }
}

} // verus!
