use vstd::prelude::*;

use crate::raster::{color_dist2, color_distance2, Rgb, RgbRaster};

verus! {

/// The tracer looks at least this many rows above and below its current row.
pub const MIN_SEARCH_RANGE: u32 = 60;

/// Lowest row of the search window of half-height `range` around row `center`.
pub open spec fn window_low(center: int, range: int) -> int {
    if center - range > 0 {
        center - range
    } else {
        0
    }
}

/// Highest row of the search window of half-height `range` around row `center`, in an image
/// of `height` rows.
pub open spec fn window_high(center: int, range: int, height: int) -> int {
    if center + range < height - 1 {
        center + range
    } else {
        height - 1
    }
}

/// Squared colour distance between the pixel at `(x, y)` and `target`.
pub open spec fn row_dist2(img: RgbRaster, x: int, y: int, target: Rgb) -> int {
    color_dist2(img.pixel_at(x, y), target)
}

/// The first row of `lo..=hi` in column `x` whose colour is nearest to `target`.
pub open spec fn first_min_row(img: RgbRaster, x: int, lo: int, hi: int, target: Rgb) -> int
    decreases hi - lo,
{
    if hi <= lo {
        lo
    } else {
        let b = first_min_row(img, x, lo, hi - 1, target);
        if row_dist2(img, x, hi, target) < row_dist2(img, x, b, target) {
            hi
        } else {
            b
        }
    }
}

/// The top of the run of rows matching `target` (squared distance at most `max_dist2`) that
/// extends upwards from row `y` without going above `lo`.
pub open spec fn run_top(img: RgbRaster, x: int, y: int, lo: int, target: Rgb, max_dist2: int) -> int
    decreases y - lo,
{
    if y > lo && row_dist2(img, x, y - 1, target) <= max_dist2 {
        run_top(img, x, y - 1, lo, target, max_dist2)
    } else {
        y
    }
}

/// The bottom of the run of rows matching `target` that extends downwards from row `y`
/// without going below `hi`.
pub open spec fn run_bottom(
    img: RgbRaster,
    x: int,
    y: int,
    hi: int,
    target: Rgb,
    max_dist2: int,
) -> int
    decreases hi - y,
{
    if y < hi && row_dist2(img, x, y + 1, target) <= max_dist2 {
        run_bottom(img, x, y + 1, hi, target, max_dist2)
    } else {
        y
    }
}

/// How many columns are left to the right of column `x`, inclusive, in an image `width` wide.
pub open spec fn columns_left(width: int, x: int) -> int {
    if x < width {
        width - x
    } else {
        0
    }
}

/// A point found by the tracer: column `x`, row `y_sum / 2` (the middle of a matching run
/// whose top and bottom rows add up to `y_sum`).
#[derive(Debug, Clone, Copy, PartialEq, Eq, Structural)]
pub struct TracePoint {
    pub x: u32,
    pub y_sum: u32,
}

/// The points found when following a curve rightwards from column `x`, searching around row
/// `center`: in each column, the run around the best-matching row, as long as that row
/// matches the target colour; the next column is `step` further and is searched around the
/// middle of the run (rounded half up).
pub open spec fn trace_right(
    img: RgbRaster,
    x: int,
    center: int,
    step: int,
    range: int,
    target: Rgb,
    max_dist2: int,
) -> Seq<TracePoint>
    decreases columns_left(img.spec_width(), x),
{
    if step <= 0 || x < 0 || x >= img.spec_width() {
        seq![]
    } else {
        let lo = window_low(center, range);
        let hi = window_high(center, range, img.spec_height());
        let best = first_min_row(img, x, lo, hi, target);
        if row_dist2(img, x, best, target) <= max_dist2 {
            let top = run_top(img, x, best, lo, target, max_dist2);
            let bottom = run_bottom(img, x, best, hi, target, max_dist2);
            seq![TracePoint { x: x as u32, y_sum: (top + bottom) as u32 }] + trace_right(
                img,
                x + step,
                (top + bottom + 1) / 2,
                step,
                range,
                target,
                max_dist2,
            )
        } else {
            seq![]
        }
    }
}

/// The best row of a window is inside it, no row of the window is nearer to the target, and
/// every row above it in the window is strictly farther.
pub proof fn lemma_first_min_row(img: RgbRaster, x: int, lo: int, hi: int, target: Rgb)
    requires
        lo <= hi,
    ensures
        lo <= first_min_row(img, x, lo, hi, target) <= hi,
        forall|y: int|
            lo <= y <= hi ==> row_dist2(img, x, first_min_row(img, x, lo, hi, target), target)
                <= #[trigger] row_dist2(img, x, y, target),
        forall|y: int|
            lo <= y < first_min_row(img, x, lo, hi, target) ==> row_dist2(
                img,
                x,
                first_min_row(img, x, lo, hi, target),
                target,
            ) < #[trigger] row_dist2(img, x, y, target),
    decreases hi - lo,
{
    if hi > lo {
        lemma_first_min_row(img, x, lo, hi - 1, target);
    }
}

/// The run above a row consists of matching rows and stops at the window's top or at a row
/// that does not match.
pub proof fn lemma_run_top(img: RgbRaster, x: int, y: int, lo: int, target: Rgb, max_dist2: int)
    requires
        lo <= y,
    ensures
        lo <= run_top(img, x, y, lo, target, max_dist2) <= y,
        forall|z: int|
            run_top(img, x, y, lo, target, max_dist2) <= z < y ==> #[trigger] row_dist2(
                img,
                x,
                z,
                target,
            ) <= max_dist2,
        run_top(img, x, y, lo, target, max_dist2) == lo || row_dist2(
            img,
            x,
            run_top(img, x, y, lo, target, max_dist2) - 1,
            target,
        ) > max_dist2,
    decreases y - lo,
{
    if y > lo && row_dist2(img, x, y - 1, target) <= max_dist2 {
        lemma_run_top(img, x, y - 1, lo, target, max_dist2);
    }
}

/// The run below a row consists of matching rows and stops at the window's bottom or at a
/// row that does not match.
pub proof fn lemma_run_bottom(img: RgbRaster, x: int, y: int, hi: int, target: Rgb, max_dist2: int)
    requires
        y <= hi,
    ensures
        y <= run_bottom(img, x, y, hi, target, max_dist2) <= hi,
        forall|z: int|
            y < z <= run_bottom(img, x, y, hi, target, max_dist2) ==> #[trigger] row_dist2(
                img,
                x,
                z,
                target,
            ) <= max_dist2,
        run_bottom(img, x, y, hi, target, max_dist2) == hi || row_dist2(
            img,
            x,
            run_bottom(img, x, y, hi, target, max_dist2) + 1,
            target,
        ) > max_dist2,
    decreases hi - y,
{
    if y < hi && row_dist2(img, x, y + 1, target) <= max_dist2 {
        lemma_run_bottom(img, x, y + 1, hi, target, max_dist2);
    }
}

/// Every point of a rightward trace lies inside the image, the first in column `x` and each
/// next one `step` columns further right.
pub proof fn lemma_trace_right_in_image(
    img: RgbRaster,
    x: int,
    center: int,
    step: int,
    range: int,
    target: Rgb,
    max_dist2: int,
)
    requires
        img.spec_width() <= i32::MAX,
        img.spec_height() <= i32::MAX,
        0 <= center < img.spec_height(),
        0 <= range,
    ensures
        forall|i: int|
            0 <= i < trace_right(img, x, center, step, range, target, max_dist2).len() ==> {
                let p = #[trigger] trace_right(img, x, center, step, range, target, max_dist2)[i];
                &&& p.x == x + i * step
                &&& 0 <= p.x < img.spec_width()
                &&& p.y_sum <= 2 * (img.spec_height() - 1)
            },
    decreases columns_left(img.spec_width(), x),
{
    let pts = trace_right(img, x, center, step, range, target, max_dist2);
    if !(step <= 0 || x < 0 || x >= img.spec_width()) {
        let lo = window_low(center, range);
        let hi = window_high(center, range, img.spec_height());
        let best = first_min_row(img, x, lo, hi, target);
        if row_dist2(img, x, best, target) <= max_dist2 {
            lemma_first_min_row(img, x, lo, hi, target);
            let top = run_top(img, x, best, lo, target, max_dist2);
            let bottom = run_bottom(img, x, best, hi, target, max_dist2);
            lemma_run_top(img, x, best, lo, target, max_dist2);
            lemma_run_bottom(img, x, best, hi, target, max_dist2);
            let next = (top + bottom + 1) / 2;
            lemma_trace_right_in_image(img, x + step, next, step, range, target, max_dist2);
            let rest = trace_right(img, x + step, next, step, range, target, max_dist2);
            assert forall|i: int| 0 <= i < pts.len() implies {
                let p = #[trigger] pts[i];
                &&& p.x == x + i * step
                &&& 0 <= p.x < img.spec_width()
                &&& p.y_sum <= 2 * (img.spec_height() - 1)
            } by {
                if i > 0 {
                    assert(pts[i] == rest[i - 1]);
                    assert(x + step + (i - 1) * step == x + i * step) by (nonlinear_arith);
                }
            }
        }
    }
}

/// Whether row `b` of column `x` is the first of rows `lo..=hi` nearest in colour to
/// `target`: no row of the window is nearer, and every row above it in the window is farther.
pub open spec fn nearest_in_window(img: RgbRaster, x: int, lo: int, hi: int, b: int, target: Rgb) -> bool {
    &&& lo <= b <= hi
    &&& forall|y: int|
        lo <= y <= hi ==> row_dist2(img, x, b, target) <= #[trigger] row_dist2(img, x, y, target)
    &&& forall|y: int|
        lo <= y < b ==> row_dist2(img, x, b, target) < #[trigger] row_dist2(img, x, y, target)
}

/// Whether rows `top..=bottom` of column `x` are the matching run that the tracer reports in
/// the window `lo..=hi`: every row of it matches `target` (squared distance at most
/// `max_dist2`), it cannot grow inside the window, and it holds the window's first nearest row.
pub open spec fn reported_run(
    img: RgbRaster,
    x: int,
    lo: int,
    hi: int,
    top: int,
    bottom: int,
    target: Rgb,
    max_dist2: int,
) -> bool {
    &&& lo <= top <= bottom <= hi
    &&& forall|y: int| top <= y <= bottom ==> #[trigger] row_dist2(img, x, y, target) <= max_dist2
    &&& (top == lo || row_dist2(img, x, top - 1, target) > max_dist2)
    &&& (bottom == hi || row_dist2(img, x, bottom + 1, target) > max_dist2)
    &&& exists|b: int| top <= b <= bottom && #[trigger] nearest_in_window(img, x, lo, hi, b, target)
}

/// Whether trace point `p` was found in the window of rows `max(c - range, 0)` to
/// `min(c + range, height - 1)` around row `c` of its column: its row sum is the top plus the
/// bottom of the run reported there.
pub open spec fn found_in_window(
    img: RgbRaster,
    p: TracePoint,
    c: int,
    range: int,
    target: Rgb,
    max_dist2: int,
) -> bool {
    exists|lo: int, hi: int, top: int, bottom: int|
        {
            &&& lo == (if c - range > 0 { c - range } else { 0 })
            &&& hi == (if c + range < img.spec_height() - 1 {
                c + range
            } else {
                img.spec_height() - 1
            })
            &&& #[trigger] reported_run(img, p.x as int, lo, hi, top, bottom, target, max_dist2)
            &&& p.y_sum == top + bottom
        }
}

/// Whether no row of column `x` in the window around row `c` matches `target`.
pub open spec fn no_match_in_window(
    img: RgbRaster,
    x: int,
    c: int,
    range: int,
    target: Rgb,
    max_dist2: int,
) -> bool {
    let lo = if c - range > 0 { c - range } else { 0 };
    let hi = if c + range < img.spec_height() - 1 { c + range } else { img.spec_height() - 1 };
    forall|y: int| lo <= y <= hi ==> #[trigger] row_dist2(img, x, y, target) > max_dist2
}

/// The row around which the `i`-th point of a trace is searched: the starting row for the
/// first, then the middle of the previous point's run, rounded half up.
pub open spec fn search_center(pts: Seq<TracePoint>, i: int, start: int) -> int {
    if i == 0 {
        start
    } else {
        (pts[i - 1].y_sum + 1) / 2
    }
}

/// A rightward trace follows the curve window by window: its `i`-th point lies in column
/// `x + i * step` and is the run reported in the window of half-height `range` around the
/// middle of the previous point's run (around `center` for the first point), never farther;
/// and when the trace ends before the image does, the next column has no matching row in its
/// window.
pub proof fn lemma_trace_right_windows(
    img: RgbRaster,
    x: int,
    center: int,
    step: int,
    range: int,
    target: Rgb,
    max_dist2: int,
)
    requires
        img.spec_width() <= i32::MAX,
        img.spec_height() <= i32::MAX,
        0 <= center < img.spec_height(),
        0 <= range,
    ensures
        step <= 0 || x < 0 ==> trace_right(img, x, center, step, range, target, max_dist2).len()
            == 0,
        forall|i: int|
            0 <= i < trace_right(img, x, center, step, range, target, max_dist2).len() ==> {
                let pts = trace_right(img, x, center, step, range, target, max_dist2);
                let p = #[trigger] trace_right(img, x, center, step, range, target, max_dist2)[i];
                &&& p.x == x + i * step
                &&& found_in_window(
                    img,
                    p,
                    search_center(pts, i, center),
                    range,
                    target,
                    max_dist2,
                )
            },
        ({
            let pts = trace_right(img, x, center, step, range, target, max_dist2);
            step > 0 && 0 <= x && x + pts.len() * step < img.spec_width() ==> no_match_in_window(
                img,
                x + pts.len() * step,
                search_center(pts, pts.len() as int, center),
                range,
                target,
                max_dist2,
            )
        }),
    decreases columns_left(img.spec_width(), x),
{
    let pts = trace_right(img, x, center, step, range, target, max_dist2);
    if !(step <= 0 || x < 0 || x >= img.spec_width()) {
        let lo = window_low(center, range);
        let hi = window_high(center, range, img.spec_height());
        let best = first_min_row(img, x, lo, hi, target);
        lemma_first_min_row(img, x, lo, hi, target);
        if row_dist2(img, x, best, target) <= max_dist2 {
            let top = run_top(img, x, best, lo, target, max_dist2);
            let bottom = run_bottom(img, x, best, hi, target, max_dist2);
            lemma_run_top(img, x, best, lo, target, max_dist2);
            lemma_run_bottom(img, x, best, hi, target, max_dist2);
            let next = (top + bottom + 1) / 2;
            lemma_trace_right_windows(img, x + step, next, step, range, target, max_dist2);
            let rest = trace_right(img, x + step, next, step, range, target, max_dist2);
            let p0 = TracePoint { x: x as u32, y_sum: (top + bottom) as u32 };
            assert(pts == seq![p0] + rest);
            assert forall|y: int| top <= y <= bottom implies #[trigger] row_dist2(
                img,
                x,
                y,
                target,
            ) <= max_dist2 by {
                if y < best {
                } else if y > best {
                }
            }
            assert(nearest_in_window(img, x, lo, hi, best, target));
            assert(reported_run(img, x, lo, hi, top, bottom, target, max_dist2));
            assert(p0.x as int == x);
            assert(top + bottom <= 2 * (img.spec_height() - 1));
            assert(p0.y_sum == top + bottom);
            assert(reported_run(img, p0.x as int, lo, hi, top, bottom, target, max_dist2));
            assert(found_in_window(img, p0, center, range, target, max_dist2));
            assert forall|i: int| 0 <= i < pts.len() implies {
                let p = #[trigger] pts[i];
                &&& p.x == x + i * step
                &&& found_in_window(
                    img,
                    p,
                    search_center(pts, i, center),
                    range,
                    target,
                    max_dist2,
                )
            } by {
                if i > 0 {
                    assert(pts[i] == rest[i - 1]);
                    assert(x + step + (i - 1) * step == x + i * step) by (nonlinear_arith);
                    if i > 1 {
                        assert(pts[i - 1] == rest[i - 2]);
                    }
                    assert(search_center(pts, i, center) == search_center(rest, i - 1, next));
                }
            }
            let n = pts.len() as int;
            assert(n == rest.len() + 1);
            if n > 1 {
                assert(pts[n - 1] == rest[n - 2]);
            }
            assert(search_center(pts, n, center) == search_center(rest, n - 1, next));
            assert(x + n * step == x + step + (n - 1) * step) by (nonlinear_arith);
        } else {
            assert(pts.len() == 0);
            assert(x + pts.len() * step == x);
            assert forall|y: int| lo <= y <= hi implies #[trigger] row_dist2(img, x, y, target)
                > max_dist2 by {
            }
        }
    }
}

/// The half-height of the tracer's search window: at least [`MIN_SEARCH_RANGE`] rows, more
/// when the tolerance radius is larger.
pub fn search_range(radius: i32) -> (r: u32)
    ensures
        r == (if radius > MIN_SEARCH_RANGE { radius as int } else { MIN_SEARCH_RANGE as int }),
{
    if radius > MIN_SEARCH_RANGE as i32 {
        radius as u32
    } else {
        MIN_SEARCH_RANGE
    }
}

/// The first row of `lo..=hi` in column `x` nearest in colour to `target`, and its squared
/// distance.
pub fn best_row(img: &RgbRaster, x: u32, lo: u32, hi: u32, target: Rgb) -> (r: (u32, u32))
    requires
        x < img.spec_width(),
        lo <= hi < img.spec_height(),
    ensures
        r.0 == first_min_row(*img, x as int, lo as int, hi as int, target),
        r.1 == row_dist2(*img, x as int, r.0 as int, target),
{
    let mut best: u32 = lo;
    let mut best_d: u32 = color_distance2(img.pixel(x, lo), target);
    let mut y: u32 = lo;
    while y < hi
        invariant
            x < img.spec_width(),
            lo <= y <= hi < img.spec_height(),
            best == first_min_row(*img, x as int, lo as int, y as int, target),
            best_d == row_dist2(*img, x as int, best as int, target),
        decreases hi - y,
    {
        y = y + 1;
        let d = color_distance2(img.pixel(x, y), target);
        if d < best_d {
            best = y;
            best_d = d;
        }
    }
    (best, best_d)
}

/// The top of the run of rows matching `target` upwards from row `y`, not above `lo`.
pub fn matching_top(img: &RgbRaster, x: u32, y: u32, lo: u32, target: Rgb, max_dist2: i64) -> (t: u32)
    requires
        x < img.spec_width(),
        lo <= y < img.spec_height(),
    ensures
        t == run_top(*img, x as int, y as int, lo as int, target, max_dist2 as int),
{
    let mut top: u32 = y;
    loop
        invariant
            x < img.spec_width(),
            lo <= top <= y < img.spec_height(),
            run_top(*img, x as int, top as int, lo as int, target, max_dist2 as int) == run_top(
                *img,
                x as int,
                y as int,
                lo as int,
                target,
                max_dist2 as int,
            ),
        ensures
            top == run_top(*img, x as int, y as int, lo as int, target, max_dist2 as int),
        decreases top,
    {
        if top <= lo {
            break;
        }
        let d = color_distance2(img.pixel(x, top - 1), target);
        if (d as i64) <= max_dist2 {
            top = top - 1;
        } else {
            break;
        }
    }
    top
}

/// The bottom of the run of rows matching `target` downwards from row `y`, not below `hi`.
pub fn matching_bottom(img: &RgbRaster, x: u32, y: u32, hi: u32, target: Rgb, max_dist2: i64) -> (b: u32)
    requires
        x < img.spec_width(),
        y <= hi < img.spec_height(),
    ensures
        b == run_bottom(*img, x as int, y as int, hi as int, target, max_dist2 as int),
{
    let mut bottom: u32 = y;
    loop
        invariant
            x < img.spec_width(),
            y <= bottom <= hi < img.spec_height(),
            run_bottom(*img, x as int, bottom as int, hi as int, target, max_dist2 as int)
                == run_bottom(*img, x as int, y as int, hi as int, target, max_dist2 as int),
        ensures
            bottom == run_bottom(*img, x as int, y as int, hi as int, target, max_dist2 as int),
        decreases hi - bottom,
    {
        if bottom >= hi {
            break;
        }
        let d = color_distance2(img.pixel(x, bottom + 1), target);
        if (d as i64) <= max_dist2 {
            bottom = bottom + 1;
        } else {
            break;
        }
    }
    bottom
}

/// The bounds of the search window around row `center`, as rows of an image of `height` rows.
pub fn search_window(center: i32, range: u32, height: u32) -> (r: (i64, i64))
    ensures
        r.0 == window_low(center as int, range as int),
        r.1 == window_high(center as int, range as int, height as int),
{
    let low: i64 = center as i64 - range as i64;
    let high: i64 = center as i64 + range as i64;
    let lo: i64 = if low > 0 {
        low
    } else {
        0
    };
    let hi: i64 = if high < height as i64 - 1 {
        high
    } else {
        height as i64 - 1
    };
    (lo, hi)
}

/// What the tracer finds in one column: the best-matching row of the window, its squared
/// colour distance, and the run of matching rows around it.
#[derive(Debug, Clone, Copy, PartialEq, Eq, Structural)]
pub struct ColumnScan {
    pub best: u32,
    pub best_dist2: u32,
    pub top: u32,
    pub bottom: u32,
}

/// Scans column `x` in the window around row `center`: the first row nearest in colour to
/// `target`, then the run of rows matching it (squared distance at most `max_dist2`) around
/// that row, inside the window. The window must hold at least one row of the image.
pub fn scan_column(
    img: &RgbRaster,
    x: u32,
    center: i32,
    range: u32,
    target: Rgb,
    max_dist2: i64,
) -> (s: ColumnScan)
    requires
        x < img.spec_width(),
        window_low(center as int, range as int) <= window_high(
            center as int,
            range as int,
            img.spec_height(),
        ),
    ensures
        ({
            let lo = window_low(center as int, range as int);
            let hi = window_high(center as int, range as int, img.spec_height());
            &&& s.best == first_min_row(*img, x as int, lo, hi, target)
            &&& s.best_dist2 == row_dist2(*img, x as int, s.best as int, target)
            &&& s.top == run_top(*img, x as int, s.best as int, lo, target, max_dist2 as int)
            &&& s.bottom == run_bottom(*img, x as int, s.best as int, hi, target, max_dist2 as int)
        }),
{
    let (lo, hi) = search_window(center, range, img.height());
    let lo = lo as u32;
    let hi = hi as u32;
    let (best, best_dist2) = best_row(img, x, lo, hi, target);
    proof {
        lemma_first_min_row(*img, x as int, lo as int, hi as int, target);
    }
    let top = matching_top(img, x, best, lo, target, max_dist2);
    let bottom = matching_bottom(img, x, best, hi, target, max_dist2);
    ColumnScan { best, best_dist2, top, bottom }
}

/// Follows a curve rightwards from pixel `(start_x, start_y)`, whose colour is the target: in
/// each column `step` further right, the run of matching rows around the best-matching row
/// of the window around the previous run's middle, until the image ends or a column holds no
/// matching row.
pub fn trace_rightward(
    img: &RgbRaster,
    start_x: u32,
    start_y: u32,
    step: u32,
    range: u32,
    max_dist2: i64,
) -> (pts: Vec<TracePoint>)
    requires
        start_x < img.spec_width(),
        start_y < img.spec_height(),
        step > 0,
    ensures
        pts@ == trace_right(
            *img,
            start_x + step,
            start_y as int,
            step as int,
            range as int,
            img.pixel_at(start_x as int, start_y as int),
            max_dist2 as int,
        ),
{
    let target = img.pixel(start_x, start_y);
    let width = img.width();
    let height = img.height();
    let ghost total = trace_right(
        *img,
        start_x + step,
        start_y as int,
        step as int,
        range as int,
        target,
        max_dist2 as int,
    );
    let mut pts: Vec<TracePoint> = Vec::new();
    let mut x: u64 = start_x as u64 + step as u64;
    let mut center: u32 = start_y;
    loop
        invariant
            width == img.spec_width(),
            height == img.spec_height(),
            width <= i32::MAX,
            height <= i32::MAX,
            step > 0,
            center < height,
            x <= 0x2_0000_0000,
            target == img.pixel_at(start_x as int, start_y as int),
            pts@ + trace_right(
                *img,
                x as int,
                center as int,
                step as int,
                range as int,
                target,
                max_dist2 as int,
            ) == total,
        ensures
            pts@ == total,
        decreases columns_left(width as int, x as int),
    {
        if x >= width as u64 {
            assert(pts@ == pts@ + Seq::<TracePoint>::empty());
            break;
        }
        let (lo, hi) = search_window(center as i32, range, height);
        let lo = lo as u32;
        let hi = hi as u32;
        let (best, best_dist2) = best_row(img, x as u32, lo, hi, target);
        proof {
            lemma_first_min_row(*img, x as int, lo as int, hi as int, target);
        }
        if (best_dist2 as i64) <= max_dist2 {
            let top = matching_top(img, x as u32, best, lo, target, max_dist2);
            let bottom = matching_bottom(img, x as u32, best, hi, target, max_dist2);
            proof {
                lemma_run_top(*img, x as int, best as int, lo as int, target, max_dist2 as int);
                lemma_run_bottom(*img, x as int, best as int, hi as int, target, max_dist2 as int);
            }
            let p = TracePoint { x: x as u32, y_sum: top + bottom };
            let ghost before = pts@;
            let ghost old_x = x as int;
            let ghost old_center = center as int;
            assert(trace_right(
                *img,
                old_x,
                old_center,
                step as int,
                range as int,
                target,
                max_dist2 as int,
            ) == seq![p] + trace_right(
                *img,
                old_x + step,
                (top + bottom + 1) / 2,
                step as int,
                range as int,
                target,
                max_dist2 as int,
            ));
            pts.push(p);
            assert(pts@ == before + seq![p]);
            center = (top + bottom + 1) / 2;
            x = x + step as u64;
            assert(before + (seq![p] + trace_right(
                *img,
                x as int,
                center as int,
                step as int,
                range as int,
                target,
                max_dist2 as int,
            )) == pts@ + trace_right(
                *img,
                x as int,
                center as int,
                step as int,
                range as int,
                target,
                max_dist2 as int,
            ));
        } else {
            assert(pts@ == pts@ + Seq::<TracePoint>::empty());
            break;
        }
    }
    pts
}


/// Whether pixel `(x, y)` lies inside the image.
pub open spec fn in_image(img: RgbRaster, x: int, y: int) -> bool {
    0 <= x < img.spec_width() && 0 <= y < img.spec_height()
}

/// Follows a curve rightwards from the pixel nearest to a guide point, given by its rounded
/// coordinates; nothing is found when that pixel lies outside the image. The search window
/// has half-height [`search_range`] of the tolerance radius.
pub fn trace_from_point(
    img: &RgbRaster,
    start_x: i32,
    start_y: i32,
    step: i32,
    radius: i32,
    max_dist2: i64,
) -> (pts: Vec<TracePoint>)
    requires
        step > 0,
    ensures
        in_image(*img, start_x as int, start_y as int) ==> pts@ == trace_right(
            *img,
            start_x + step,
            start_y as int,
            step as int,
            if radius > MIN_SEARCH_RANGE { radius as int } else { MIN_SEARCH_RANGE as int },
            img.pixel_at(start_x as int, start_y as int),
            max_dist2 as int,
        ),
        !in_image(*img, start_x as int, start_y as int) ==> pts@ == Seq::<TracePoint>::empty(),
{
    let width = img.width();
    let height = img.height();
    if start_x < 0 || start_x as u32 >= width || start_y < 0 || start_y as u32 >= height {
        return Vec::new();
    }
    let range = search_range(radius);
    trace_rightward(img, start_x as u32, start_y as u32, step as u32, range, max_dist2)
}

/// How many rows `y` of `from..to` in column `x` lie inside the image and match `target`.
pub open spec fn matching_row_count(
    img: RgbRaster,
    x: int,
    from: int,
    to: int,
    target: Rgb,
    max_dist2: int,
) -> int
    decreases to - from,
{
    if to <= from {
        0
    } else {
        matching_row_count(img, x, from, to - 1, target, max_dist2) + if 0 <= to - 1
            < img.spec_height() && row_dist2(img, x, to - 1, target) <= max_dist2 {
            1int
        } else {
            0int
        }
    }
}

/// The sum of the rows counted by [`matching_row_count`].
pub open spec fn matching_row_sum(
    img: RgbRaster,
    x: int,
    from: int,
    to: int,
    target: Rgb,
    max_dist2: int,
) -> int
    decreases to - from,
{
    if to <= from {
        0
    } else {
        matching_row_sum(img, x, from, to - 1, target, max_dist2) + if 0 <= to - 1
            < img.spec_height() && row_dist2(img, x, to - 1, target) <= max_dist2 {
            to - 1
        } else {
            0
        }
    }
}

/// Whether row `y` of column `x` lies in the image and matches `target`.
pub open spec fn matching_in_image(img: RgbRaster, x: int, y: int, target: Rgb, max_dist2: int) -> bool {
    0 <= y < img.spec_height() && row_dist2(img, x, y, target) <= max_dist2
}

/// A range of rows never holds more matching rows than it has rows.
pub proof fn lemma_matching_rows_bound(
    img: RgbRaster,
    x: int,
    from: int,
    to: int,
    target: Rgb,
    max_dist2: int,
)
    requires
        from <= to,
    ensures
        0 <= matching_row_count(img, x, from, to, target, max_dist2) <= to - from,
    decreases to - from,
{
    if to > from {
        lemma_matching_rows_bound(img, x, from, to - 1, target, max_dist2);
    }
}

/// When every row of `from..to` lies in the image and matches, all of them are counted and
/// their sum is that of the whole range.
pub proof fn lemma_matching_rows_all(
    img: RgbRaster,
    x: int,
    from: int,
    to: int,
    target: Rgb,
    max_dist2: int,
)
    requires
        from <= to,
        forall|y: int| from <= y < to ==> #[trigger] matching_in_image(img, x, y, target, max_dist2),
    ensures
        matching_row_count(img, x, from, to, target, max_dist2) == to - from,
        2 * matching_row_sum(img, x, from, to, target, max_dist2) == (to - from) * (from + to - 1),
    decreases to - from,
{
    if to > from {
        assert(matching_in_image(img, x, to - 1, target, max_dist2));
        lemma_matching_rows_all(img, x, from, to - 1, target, max_dist2);
        assert(2 * (to - 1) + (to - 1 - from) * (from + to - 2) == (to - from) * (from + to - 1))
            by (nonlinear_arith);
    }
}

/// When no row of `from..to` inside the image matches, none is counted and the sum is zero.
pub proof fn lemma_matching_rows_none(
    img: RgbRaster,
    x: int,
    from: int,
    to: int,
    target: Rgb,
    max_dist2: int,
)
    requires
        forall|y: int|
            from <= y < to && 0 <= y < img.spec_height() ==> #[trigger] row_dist2(img, x, y, target)
                > max_dist2,
    ensures
        matching_row_count(img, x, from, to, target, max_dist2) == 0,
        matching_row_sum(img, x, from, to, target, max_dist2) == 0,
    decreases to - from,
{
    if to > from {
        lemma_matching_rows_none(img, x, from, to - 1, target, max_dist2);
        if 0 <= to - 1 < img.spec_height() {
            assert(row_dist2(img, x, to - 1, target) > max_dist2);
        }
    }
}

/// The count and sum of the rows within `radius` of row `center` in column `x` that lie inside
/// the image and match `target`; their mean is the centre of the curve's colour there.
pub fn matching_rows_around(
    img: &RgbRaster,
    x: u32,
    center: i32,
    radius: i32,
    target: Rgb,
    max_dist2: i64,
) -> (r: (u32, u64))
    requires
        x < img.spec_width(),
    ensures
        r.0 == matching_row_count(
            *img,
            x as int,
            center - radius,
            center + radius + 1,
            target,
            max_dist2 as int,
        ),
        r.1 == matching_row_sum(
            *img,
            x as int,
            center - radius,
            center + radius + 1,
            target,
            max_dist2 as int,
        ),
{
    let height = img.height();
    let from: i64 = center as i64 - radius as i64;
    let to: i64 = center as i64 + radius as i64 + 1;
    let mut count: u32 = 0;
    let mut sum: u64 = 0;
    if to <= from {
        return (0, 0);
    }
    let mut y: i64 = from;
    while y < to
        invariant
            x < img.spec_width(),
            height == img.spec_height(),
            height <= i32::MAX,
            from <= y <= to,
            to - from <= 0xffff_ffff,
            count <= y - from,
            sum <= (y - from) * 0x8000_0000,
            count == matching_row_count(*img, x as int, from as int, y as int, target, max_dist2 as int),
            sum == matching_row_sum(*img, x as int, from as int, y as int, target, max_dist2 as int),
        decreases to - y,
    {
        if 0 <= y && y < height as i64 {
            let d = color_distance2(img.pixel(x, y as u32), target);
            if (d as i64) <= max_dist2 {
                count = count + 1;
                sum = sum + y as u64;
            }
        }
        y = y + 1;
    }
    (count, sum)
}

} // verus!
