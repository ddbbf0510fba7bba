//! Filled triangles in the linear 256-colour mode, drawn row by row with
//! 16.16 fixed-point edges: a triangle with a flat bottom or a flat top is
//! filled directly, any other is cut into one of each at its middle corner.
use vstd::prelude::*;
use crate::vga::vga_graphics::VgaVideoMode;

verus! {

/// Division rounding toward zero, as `/` on signed integers does.
pub open spec fn div_trunc(a: int, b: int) -> int {
    if a >= 0 {
        a / b
    } else {
        -((-a) / b)
    }
}

/// The fixed-point step per row of an edge that moves `dx` columns over
/// `dy` rows.
pub open spec fn edge_slope(dx: int, dy: int) -> int {
    div_trunc(dx * 65536, dy)
}

/// The column a nonnegative fixed-point position rounds to.
pub open spec fn round_fixed(fx: int) -> int {
    (fx + 32768) / 65536
}

/// The two edge slopes of a triangle with apex column `x0` whose flat base
/// `dy` rows below runs from `xa` to `xb`, the smaller one first.
pub open spec fn bottom_slopes(x0: int, xa: int, xb: int, dy: int) -> (int, int) {
    let s1 = edge_slope(xa - x0, dy);
    let s2 = edge_slope(xb - x0, dy);
    if s2 < s1 {
        (s2, s1)
    } else {
        (s1, s2)
    }
}

/// The first and last column filled `k` rows below the apex.
pub open spec fn bottom_span(x0: int, xa: int, xb: int, dy: int, k: int) -> (int, int) {
    let s = bottom_slopes(x0, xa, xb, dy);
    (round_fixed(x0 * 65536 + k * s.0), round_fixed(x0 * 65536 + k * s.1))
}

/// Whether the flat-bottomed triangle with apex (`x0`, `y0`) and base row
/// `yb` from `xa` to `xb` fills buffer index `i`, rows `pitch` apart.
pub open spec fn bottom_covers(x0: int, y0: int, xa: int, xb: int, yb: int, pitch: int, i: int) -> bool {
    let dy = yb - y0;
    dy > 0 && exists|k: int| 0 <= k <= dy && #[trigger] bottom_row_covers(x0, y0, xa, xb, dy, pitch, k, i)
}

/// Whether row `k` below the apex of that triangle fills index `i`.
pub open spec fn bottom_row_covers(x0: int, y0: int, xa: int, xb: int, dy: int, pitch: int, k: int, i: int) -> bool {
    let span = bottom_span(x0, xa, xb, dy, k);
    (y0 + k) * pitch + span.0 <= i <= (y0 + k) * pitch + span.1
}

/// Every index that the flat-bottomed triangle fills is below `len`.
pub open spec fn bottom_fits(x0: int, y0: int, xa: int, xb: int, yb: int, pitch: int, len: int) -> bool {
    let dy = yb - y0;
    dy > 0 ==> forall|k: int| 0 <= k <= dy ==> (y0 + k) * pitch + #[trigger] bottom_span(x0, xa, xb, dy, k).1 < len
}

/// The two edge slopes of a triangle whose flat top runs from `xa` to `xb`
/// and whose apex column is `x2`, `dy` rows below, the larger one first.
pub open spec fn top_slopes(xa: int, xb: int, x2: int, dy: int) -> (int, int) {
    let s1 = edge_slope(x2 - xa, dy);
    let s2 = edge_slope(x2 - xb, dy);
    if s2 > s1 {
        (s2, s1)
    } else {
        (s1, s2)
    }
}

/// The first and last column filled `k` rows above the apex.
pub open spec fn top_span(xa: int, xb: int, x2: int, dy: int, k: int) -> (int, int) {
    let s = top_slopes(xa, xb, x2, dy);
    (round_fixed(x2 * 65536 - k * s.0), round_fixed(x2 * 65536 - k * s.1))
}

/// Whether row `k` above the apex (`x2`, `y2`) fills index `i`.
pub open spec fn top_row_covers(xa: int, xb: int, x2: int, y2: int, dy: int, pitch: int, k: int, i: int) -> bool {
    let span = top_span(xa, xb, x2, dy, k);
    (y2 - k) * pitch + span.0 <= i <= (y2 - k) * pitch + span.1
}

/// Whether the flat-topped triangle with top row `yt` from `xa` to `xb`
/// and apex (`x2`, `y2`) fills index `i`.
pub open spec fn top_covers(xa: int, xb: int, yt: int, x2: int, y2: int, pitch: int, i: int) -> bool {
    let dy = y2 - yt;
    dy > 0 && exists|k: int| 0 <= k <= dy && #[trigger] top_row_covers(xa, xb, x2, y2, dy, pitch, k, i)
}

/// Every index that the flat-topped triangle fills is below `len`.
pub open spec fn top_fits(xa: int, xb: int, yt: int, x2: int, y2: int, pitch: int, len: int) -> bool {
    let dy = y2 - yt;
    dy > 0 ==> forall|k: int| 0 <= k <= dy ==> (y2 - k) * pitch + #[trigger] top_span(xa, xb, x2, dy, k).1 < len
}

/// The corners ordered by row, as three exchanges order them: the first
/// and last, then the middle and last, then the first and middle.
pub open spec fn sort_corners(c: (int, int, int, int, int, int)) -> (int, int, int, int, int, int) {
    let (x0, y0, x1, y1, x2, y2) = c;
    let (x0, y0, x2, y2) = if y0 > y2 { (x2, y2, x0, y0) } else { (x0, y0, x2, y2) };
    let (x1, y1, x2, y2) = if y1 > y2 { (x2, y2, x1, y1) } else { (x1, y1, x2, y2) };
    let (x0, y0, x1, y1) = if y0 > y1 { (x1, y1, x0, y0) } else { (x0, y0, x1, y1) };
    (x0, y0, x1, y1, x2, y2)
}

/// The column where the long edge crosses the middle corner's row.
pub open spec fn split_column(s: (int, int, int, int, int, int)) -> int {
    s.0 + div_trunc((s.4 - s.0) * (s.3 - s.1), s.5 - s.1)
}

/// Whether the filled triangle with corners `c` covers index `i`.
pub open spec fn triangle_covers(c: (int, int, int, int, int, int), pitch: int, i: int) -> bool {
    let s = sort_corners(c);
    if s.3 == s.5 {
        bottom_covers(s.0, s.1, s.2, s.4, s.5, pitch, i)
    } else if s.1 == s.3 {
        top_covers(s.0, s.2, s.1, s.4, s.5, pitch, i)
    } else {
        bottom_covers(s.0, s.1, s.2, split_column(s), s.3, pitch, i) || top_covers(
            s.2,
            split_column(s),
            s.3,
            s.4,
            s.5,
            pitch,
            i,
        )
    }
}

/// Every index that the filled triangle with corners `c` covers is below
/// `len`.
pub open spec fn triangle_fits(c: (int, int, int, int, int, int), pitch: int, len: int) -> bool {
    let s = sort_corners(c);
    if s.3 == s.5 {
        bottom_fits(s.0, s.1, s.2, s.4, s.5, pitch, len)
    } else if s.1 == s.3 {
        top_fits(s.0, s.2, s.1, s.4, s.5, pitch, len)
    } else {
        bottom_fits(s.0, s.1, s.2, split_column(s), s.3, pitch, len) && top_fits(
            s.2,
            split_column(s),
            s.3,
            s.4,
            s.5,
            pitch,
            len,
        )
    }
}

/// Whether no corner lies beyond the screen's last column or row plus one.
pub open spec fn on_screen(x0: usize, y0: usize, x1: usize, y1: usize, x2: usize, y2: usize, w: usize, h: usize) -> bool {
    x0 <= w && y0 <= h && x1 <= w && y1 <= h && x2 <= w && y2 <= h
}

/// The truncating quotient lies between 0 and the dividend.
proof fn lemma_div_trunc_bounds(a: int, b: int)
    requires
        b > 0,
    ensures
        a >= 0 ==> 0 <= div_trunc(a, b) <= a,
        a < 0 ==> a <= div_trunc(a, b) <= 0,
        a >= 0 ==> div_trunc(a, b) * b <= a,
        a < 0 ==> div_trunc(a, b) * b >= a,
{
    if a >= 0 {
        vstd::arithmetic::div_mod::lemma_div_pos_is_pos(a, b);
        vstd::arithmetic::div_mod::lemma_div_is_ordered_by_denominator(a, 1, b);
        vstd::arithmetic::div_mod::lemma_fundamental_div_mod(a, b);
        assert(div_trunc(a, b) * b <= a) by (nonlinear_arith)
            requires
                a == b * (a / b) + a % b,
                0 <= a % b,
                div_trunc(a, b) == a / b,
        ;
    } else {
        vstd::arithmetic::div_mod::lemma_div_pos_is_pos(-a, b);
        vstd::arithmetic::div_mod::lemma_div_is_ordered_by_denominator(-a, 1, b);
        vstd::arithmetic::div_mod::lemma_fundamental_div_mod(-a, b);
        assert(div_trunc(a, b) * b >= a) by (nonlinear_arith)
            requires
                -a == b * ((-a) / b) + (-a) % b,
                0 <= (-a) % b,
                div_trunc(a, b) == -((-a) / b),
        ;
    }
}

/// `k` steps of an edge slope from `x0` stay between `x0` and the edge's
/// far end `x1`, `dy` rows away, for `0 <= k <= dy`.
proof fn lemma_edge_between(x0: int, x1: int, dy: int, k: int)
    requires
        dy > 0,
        0 <= k <= dy,
    ensures
        x1 >= x0 ==> x0 * 65536 <= x0 * 65536 + k * edge_slope(x1 - x0, dy) <= x1 * 65536,
        x1 < x0 ==> x1 * 65536 <= x0 * 65536 + k * edge_slope(x1 - x0, dy) <= x0 * 65536,
{
    let s = edge_slope(x1 - x0, dy);
    lemma_div_trunc_bounds((x1 - x0) * 65536, dy);
    if x1 >= x0 {
        assert(0 <= k * s <= (x1 - x0) * 65536) by (nonlinear_arith)
            requires
                0 <= s,
                s * dy <= (x1 - x0) * 65536,
                0 <= k <= dy,
        ;
    } else {
        assert((x1 - x0) * 65536 <= k * s <= 0) by (nonlinear_arith)
            requires
                s <= 0,
                s * dy >= (x1 - x0) * 65536,
                0 <= k <= dy,
        ;
    }
}

/// Rounding keeps the order of positions, and a position within
/// `[a * 65536, b * 65536]` rounds into `[a, b]`.
proof fn lemma_round_fixed(fx: int, fy: int, a: int, b: int)
    requires
        0 <= fx <= fy,
        a * 65536 <= fx,
        fy <= b * 65536,
    ensures
        round_fixed(fx) <= round_fixed(fy),
        a <= round_fixed(fx),
        round_fixed(fy) <= b,
{
    vstd::arithmetic::div_mod::lemma_div_is_ordered(fx + 32768, fy + 32768, 65536);
    vstd::arithmetic::div_mod::lemma_div_is_ordered(a * 65536, fx + 32768, 65536);
    vstd::arithmetic::div_mod::lemma_div_is_ordered(fy + 32768, b * 65536 + 32768, 65536);
    vstd::arithmetic::div_mod::lemma_div_multiples_vanish(a, 65536);
    vstd::arithmetic::div_mod::lemma_div_multiples_vanish_fancy(b, 32768, 65536);
}

/// The rows of a flat-bottomed triangle run from its apex's column range
/// outward, never leaving the columns of its corners, first before last.
proof fn lemma_bottom_span_bounds(x0: int, xa: int, xb: int, dy: int, k: int)
    requires
        dy > 0,
        0 <= k <= dy,
        x0 >= 0,
        xa >= 0,
        xb >= 0,
    ensures
        0 <= x0 * 65536 + k * bottom_slopes(x0, xa, xb, dy).0,
        x0 * 65536 + k * bottom_slopes(x0, xa, xb, dy).0 <= x0 * 65536 + k * bottom_slopes(x0, xa, xb, dy).1,
        bottom_span(x0, xa, xb, dy, k).0 <= bottom_span(x0, xa, xb, dy, k).1,
        min3(x0, xa, xb) <= bottom_span(x0, xa, xb, dy, k).0,
        bottom_span(x0, xa, xb, dy, k).1 <= max3(x0, xa, xb),
{
    let s = bottom_slopes(x0, xa, xb, dy);
    lemma_edge_between(x0, xa, dy, k);
    lemma_edge_between(x0, xb, dy, k);
    assert(k * s.0 <= k * s.1) by (nonlinear_arith)
        requires
            s.0 <= s.1,
            0 <= k,
    ;
    let lo = x0 * 65536 + k * s.0;
    let hi = x0 * 65536 + k * s.1;
    assert(min3(x0, xa, xb) * 65536 <= lo) by (nonlinear_arith)
        requires
            lo == x0 * 65536 + k * edge_slope(xa - x0, dy) || lo == x0 * 65536 + k * edge_slope(xb - x0, dy),
            xa >= x0 ==> x0 * 65536 <= x0 * 65536 + k * edge_slope(xa - x0, dy),
            xa < x0 ==> xa * 65536 <= x0 * 65536 + k * edge_slope(xa - x0, dy),
            xb >= x0 ==> x0 * 65536 <= x0 * 65536 + k * edge_slope(xb - x0, dy),
            xb < x0 ==> xb * 65536 <= x0 * 65536 + k * edge_slope(xb - x0, dy),
            min3(x0, xa, xb) <= x0,
            min3(x0, xa, xb) <= xa,
            min3(x0, xa, xb) <= xb,
    ;
    assert(hi <= max3(x0, xa, xb) * 65536) by (nonlinear_arith)
        requires
            hi == x0 * 65536 + k * edge_slope(xa - x0, dy) || hi == x0 * 65536 + k * edge_slope(xb - x0, dy),
            xa >= x0 ==> x0 * 65536 + k * edge_slope(xa - x0, dy) <= xa * 65536,
            xa < x0 ==> x0 * 65536 + k * edge_slope(xa - x0, dy) <= x0 * 65536,
            xb >= x0 ==> x0 * 65536 + k * edge_slope(xb - x0, dy) <= xb * 65536,
            xb < x0 ==> x0 * 65536 + k * edge_slope(xb - x0, dy) <= x0 * 65536,
            max3(x0, xa, xb) >= x0,
            max3(x0, xa, xb) >= xa,
            max3(x0, xa, xb) >= xb,
    ;
    assert(0 <= min3(x0, xa, xb) * 65536) by (nonlinear_arith)
        requires
            min3(x0, xa, xb) >= 0,
    ;
    lemma_round_fixed(lo, hi, min3(x0, xa, xb), max3(x0, xa, xb));
}

/// The rows of a flat-topped triangle never leave the columns of its
/// corners, first before last.
proof fn lemma_top_span_bounds(xa: int, xb: int, x2: int, dy: int, k: int)
    requires
        dy > 0,
        0 <= k <= dy,
        xa >= 0,
        xb >= 0,
        x2 >= 0,
    ensures
        0 <= x2 * 65536 - k * top_slopes(xa, xb, x2, dy).0,
        x2 * 65536 - k * top_slopes(xa, xb, x2, dy).0 <= x2 * 65536 - k * top_slopes(xa, xb, x2, dy).1,
        top_span(xa, xb, x2, dy, k).0 <= top_span(xa, xb, x2, dy, k).1,
        min3(xa, xb, x2) <= top_span(xa, xb, x2, dy, k).0,
        top_span(xa, xb, x2, dy, k).1 <= max3(xa, xb, x2),
{
    let s = top_slopes(xa, xb, x2, dy);
    lemma_top_edge(xa, x2, dy, k);
    lemma_top_edge(xb, x2, dy, k);
    assert(k * s.1 <= k * s.0) by (nonlinear_arith)
        requires
            s.1 <= s.0,
            0 <= k,
    ;
    let lo = x2 * 65536 - k * s.0;
    let hi = x2 * 65536 - k * s.1;
    assert(min3(xa, xb, x2) * 65536 <= lo) by (nonlinear_arith)
        requires
            lo == x2 * 65536 - k * edge_slope(x2 - xa, dy) || lo == x2 * 65536 - k * edge_slope(x2 - xb, dy),
            x2 >= xa ==> xa * 65536 <= x2 * 65536 - k * edge_slope(x2 - xa, dy),
            x2 < xa ==> x2 * 65536 <= x2 * 65536 - k * edge_slope(x2 - xa, dy),
            x2 >= xb ==> xb * 65536 <= x2 * 65536 - k * edge_slope(x2 - xb, dy),
            x2 < xb ==> x2 * 65536 <= x2 * 65536 - k * edge_slope(x2 - xb, dy),
            min3(xa, xb, x2) <= xa,
            min3(xa, xb, x2) <= xb,
            min3(xa, xb, x2) <= x2,
    ;
    assert(hi <= max3(xa, xb, x2) * 65536) by (nonlinear_arith)
        requires
            hi == x2 * 65536 - k * edge_slope(x2 - xa, dy) || hi == x2 * 65536 - k * edge_slope(x2 - xb, dy),
            x2 >= xa ==> x2 * 65536 - k * edge_slope(x2 - xa, dy) <= x2 * 65536,
            x2 < xa ==> x2 * 65536 - k * edge_slope(x2 - xa, dy) <= xa * 65536,
            x2 >= xb ==> x2 * 65536 - k * edge_slope(x2 - xb, dy) <= x2 * 65536,
            x2 < xb ==> x2 * 65536 - k * edge_slope(x2 - xb, dy) <= xb * 65536,
            max3(xa, xb, x2) >= xa,
            max3(xa, xb, x2) >= xb,
            max3(xa, xb, x2) >= x2,
    ;
    assert(0 <= min3(xa, xb, x2) * 65536) by (nonlinear_arith)
        requires
            min3(xa, xb, x2) >= 0,
    ;
    lemma_round_fixed(lo, hi, min3(xa, xb, x2), max3(xa, xb, x2));
}

/// Stepping `k` rows up from the apex `x2` along the edge to `xa`, `dy`
/// rows up, stays between the two corners' columns.
proof fn lemma_top_edge(xa: int, x2: int, dy: int, k: int)
    requires
        dy > 0,
        0 <= k <= dy,
    ensures
        x2 >= xa ==> xa * 65536 <= x2 * 65536 - k * edge_slope(x2 - xa, dy) <= x2 * 65536,
        x2 < xa ==> x2 * 65536 <= x2 * 65536 - k * edge_slope(x2 - xa, dy) <= xa * 65536,
{
    let s = edge_slope(x2 - xa, dy);
    lemma_div_trunc_bounds((x2 - xa) * 65536, dy);
    if x2 >= xa {
        assert(0 <= k * s <= (x2 - xa) * 65536) by (nonlinear_arith)
            requires
                0 <= s,
                s * dy <= (x2 - xa) * 65536,
                0 <= k <= dy,
        ;
    } else {
        assert((x2 - xa) * 65536 <= k * s <= 0) by (nonlinear_arith)
            requires
                s <= 0,
                s * dy >= (x2 - xa) * 65536,
                0 <= k <= dy,
        ;
    }
}

/// The least of three integers.
pub open spec fn min3(a: int, b: int, c: int) -> int {
    if a <= b && a <= c {
        a
    } else if b <= c {
        b
    } else {
        c
    }
}

/// The greatest of three integers.
pub open spec fn max3(a: int, b: int, c: int) -> int {
    if a >= b && a >= c {
        a
    } else if b >= c {
        b
    } else {
        c
    }
}

/// The long edge's crossing of the middle row lies between the columns of
/// its two ends.
proof fn lemma_split_between(x0: int, x2: int, dyb: int, dy: int)
    requires
        0 <= dyb <= dy,
        dy > 0,
    ensures
        x2 >= x0 ==> x0 <= x0 + div_trunc((x2 - x0) * dyb, dy) <= x2,
        x2 < x0 ==> x2 <= x0 + div_trunc((x2 - x0) * dyb, dy) <= x0,
{
    let q = div_trunc((x2 - x0) * dyb, dy);
    lemma_div_trunc_bounds((x2 - x0) * dyb, dy);
    if x2 >= x0 {
        assert(0 <= (x2 - x0) * dyb) by (nonlinear_arith)
            requires
                x2 >= x0,
                dyb >= 0,
        ;
        assert(q <= x2 - x0) by (nonlinear_arith)
            requires
                q * dy <= (x2 - x0) * dyb,
                0 <= dyb <= dy,
                x2 >= x0,
                dy > 0,
        ;
    } else {
        if (x2 - x0) * dyb >= 0 {
            assert((x2 - x0) * dyb <= 0) by (nonlinear_arith)
                requires
                    x2 < x0,
                    dyb >= 0,
            ;
        }
        assert(q >= x2 - x0) by (nonlinear_arith)
            requires
                q * dy >= (x2 - x0) * dyb,
                (x2 - x0) * dyb <= 0 ==> q <= 0,
                0 <= dyb <= dy,
                x2 < x0,
                dy > 0,
        ;
    }
}

/// Whether index `i` is pixel (`col`, `row`) of a buffer with rows `pitch`
/// apart, for some row in `[r0, r1]` and column in `[c0, c1]`.
pub open spec fn in_box(i: int, pitch: int, c0: int, c1: int, r0: int, r1: int) -> bool {
    exists|row: int, col: int| r0 <= row <= r1 && c0 <= col <= c1 && i == #[trigger] pixel_at(row, col, pitch)
}

/// The index of pixel (`col`, `row`), rows `pitch` apart.
pub open spec fn pixel_at(row: int, col: int, pitch: int) -> int {
    row * pitch + col
}

/// What a flat-bottomed triangle fills lies within its bounding box.
proof fn lemma_bottom_in_box(x0: int, y0: int, xa: int, xb: int, yb: int, pitch: int, i: int)
    requires
        x0 >= 0,
        xa >= 0,
        xb >= 0,
        bottom_covers(x0, y0, xa, xb, yb, pitch, i),
    ensures
        in_box(i, pitch, min3(x0, xa, xb), max3(x0, xa, xb), y0, yb),
{
    let dy = yb - y0;
    let k = choose|k: int| 0 <= k <= dy && #[trigger] bottom_row_covers(x0, y0, xa, xb, dy, pitch, k, i);
    lemma_bottom_span_bounds(x0, xa, xb, dy, k);
    let row = y0 + k;
    let col = i - row * pitch;
    assert(i == pixel_at(row, col, pitch));
}

/// What a flat-topped triangle fills lies within its bounding box.
proof fn lemma_top_in_box(xa: int, xb: int, yt: int, x2: int, y2: int, pitch: int, i: int)
    requires
        xa >= 0,
        xb >= 0,
        x2 >= 0,
        top_covers(xa, xb, yt, x2, y2, pitch, i),
    ensures
        in_box(i, pitch, min3(xa, xb, x2), max3(xa, xb, x2), yt, y2),
{
    let dy = y2 - yt;
    let k = choose|k: int| 0 <= k <= dy && #[trigger] top_row_covers(xa, xb, x2, y2, dy, pitch, k, i);
    lemma_top_span_bounds(xa, xb, x2, dy, k);
    let row = y2 - k;
    let col = i - row * pitch;
    assert(i == pixel_at(row, col, pitch));
}

/// A box inside a larger box.
proof fn lemma_box_widen(i: int, pitch: int, c0: int, c1: int, r0: int, r1: int, d0: int, d1: int, s0: int, s1: int)
    requires
        in_box(i, pitch, c0, c1, r0, r1),
        d0 <= c0,
        c1 <= d1,
        s0 <= r0,
        r1 <= s1,
    ensures
        in_box(i, pitch, d0, d1, s0, s1),
{
    let (row, col) = choose|row: int, col: int| r0 <= row <= r1 && c0 <= col <= c1 && i == #[trigger] pixel_at(row, col, pitch);
    assert(s0 <= row <= s1 && d0 <= col <= d1 && i == pixel_at(row, col, pitch));
}

/// A filled triangle paints only inside the bounding box of its corners:
/// every index it fills is the pixel of a row between its highest and
/// lowest corner and a column between its leftmost and rightmost one.
pub proof fn law_fill_in_box(c: (int, int, int, int, int, int), pitch: int, i: int)
    requires
        c.0 >= 0,
        c.2 >= 0,
        c.4 >= 0,
        triangle_covers(c, pitch, i),
    ensures
        in_box(i, pitch, min3(c.0, c.2, c.4), max3(c.0, c.2, c.4), min3(c.1, c.3, c.5), max3(c.1, c.3, c.5)),
{
    let s = sort_corners(c);
    let cx0 = min3(c.0, c.2, c.4);
    let cx1 = max3(c.0, c.2, c.4);
    let cy0 = min3(c.1, c.3, c.5);
    let cy1 = max3(c.1, c.3, c.5);
    assert(s.1 <= s.3 <= s.5);
    assert(cy0 == s.1 && cy1 == s.5);
    assert(min3(s.0, s.2, s.4) == cx0 && max3(s.0, s.2, s.4) == cx1);
    if s.3 == s.5 {
        lemma_bottom_in_box(s.0, s.1, s.2, s.4, s.5, pitch, i);
        lemma_box_widen(i, pitch, min3(s.0, s.2, s.4), max3(s.0, s.2, s.4), s.1, s.5, cx0, cx1, cy0, cy1);
    } else if s.1 == s.3 {
        lemma_top_in_box(s.0, s.2, s.1, s.4, s.5, pitch, i);
        lemma_box_widen(i, pitch, min3(s.0, s.2, s.4), max3(s.0, s.2, s.4), s.1, s.5, cx0, cx1, cy0, cy1);
    } else {
        let xs = split_column(s);
        lemma_split_between(s.0, s.4, s.3 - s.1, s.5 - s.1);
        if bottom_covers(s.0, s.1, s.2, xs, s.3, pitch, i) {
            lemma_bottom_in_box(s.0, s.1, s.2, xs, s.3, pitch, i);
            lemma_box_widen(i, pitch, min3(s.0, s.2, xs), max3(s.0, s.2, xs), s.1, s.3, cx0, cx1, cy0, cy1);
        } else {
            lemma_top_in_box(s.2, xs, s.3, s.4, s.5, pitch, i);
            lemma_box_widen(i, pitch, min3(s.2, xs, s.4), max3(s.2, xs, s.4), s.3, s.5, cx0, cx1, cy0, cy1);
        }
    }
}

/// A flat-bottomed triangle with every corner on a `w` by `h` screen fits
/// the buffer.
proof fn lemma_bottom_fits_on_screen(x0: int, y0: int, xa: int, xb: int, yb: int, w: int, h: int, len: int)
    requires
        0 <= x0 < w,
        0 <= xa < w,
        0 <= xb < w,
        0 <= y0,
        yb < h,
        w * h <= len,
    ensures
        bottom_fits(x0, y0, xa, xb, yb, w, len),
{
    let dy = yb - y0;
    if dy > 0 {
        assert forall|k: int| 0 <= k <= dy implies (y0 + k) * w + #[trigger] bottom_span(x0, xa, xb, dy, k).1 < len by {
            lemma_bottom_span_bounds(x0, xa, xb, dy, k);
            let e = bottom_span(x0, xa, xb, dy, k).1;
            assert((y0 + k) * w + e < len) by (nonlinear_arith)
                requires
                    0 <= y0 + k < h,
                    0 <= e < w,
                    w * h <= len,
            ;
        }
    }
}

/// A flat-topped triangle with every corner on a `w` by `h` screen fits
/// the buffer.
proof fn lemma_top_fits_on_screen(xa: int, xb: int, yt: int, x2: int, y2: int, w: int, h: int, len: int)
    requires
        0 <= xa < w,
        0 <= xb < w,
        0 <= x2 < w,
        0 <= yt,
        y2 < h,
        w * h <= len,
    ensures
        top_fits(xa, xb, yt, x2, y2, w, len),
{
    let dy = y2 - yt;
    if dy > 0 {
        assert forall|k: int| 0 <= k <= dy implies (y2 - k) * w + #[trigger] top_span(xa, xb, x2, dy, k).1 < len by {
            lemma_top_span_bounds(xa, xb, x2, dy, k);
            let e = top_span(xa, xb, x2, dy, k).1;
            assert((y2 - k) * w + e < len) by (nonlinear_arith)
                requires
                    0 <= y2 - k < h,
                    0 <= e < w,
                    w * h <= len,
            ;
        }
    }
}

/// A triangle whose corners all lie on a `w` by `h` screen, in a buffer of
/// at least `w * h` cells with rows `w` apart, fits the buffer.
pub proof fn law_on_screen_triangle_fits(c: (int, int, int, int, int, int), w: int, h: int, len: int)
    requires
        0 <= c.0 < w,
        0 <= c.2 < w,
        0 <= c.4 < w,
        0 <= c.1 < h,
        0 <= c.3 < h,
        0 <= c.5 < h,
        w * h <= len,
    ensures
        triangle_fits(c, w, len),
{
    let s = sort_corners(c);
    if s.3 == s.5 {
        lemma_bottom_fits_on_screen(s.0, s.1, s.2, s.4, s.5, w, h, len);
    } else if s.1 == s.3 {
        lemma_top_fits_on_screen(s.0, s.2, s.1, s.4, s.5, w, h, len);
    } else {
        let xs = split_column(s);
        lemma_split_between(s.0, s.4, s.3 - s.1, s.5 - s.1);
        lemma_bottom_fits_on_screen(s.0, s.1, s.2, xs, s.3, w, h, len);
        lemma_top_fits_on_screen(s.2, xs, s.3, s.4, s.5, w, h, len);
    }
}

/// `(k + 1) * s` is `k * s + s`.
proof fn lemma_step(k: int, s: int)
    ensures
        (k + 1) * s == k * s + s,
{
    assert((k + 1) * s == k * s + s) by (nonlinear_arith);
}

/// The fixed-point slope of an edge moving `dx` columns over `dy` rows.
fn fixed_edge_slope(dx: isize, dy: isize, limit: isize) -> (r: isize)
    requires
        dy > 0,
        0 <= limit,
        -limit <= dx <= limit,
        limit * 65536 < isize::MAX,
    ensures
        r == edge_slope(dx as int, dy as int),
{
    assert(-limit * 65536 <= dx * 65536 <= limit * 65536) by (nonlinear_arith)
        requires
            -limit <= dx <= limit,
            0 <= limit,
    ;
    (dx * 65536) / dy
}

impl VgaVideoMode {
    /// Sets the buffer cells `start..=end` to `color`.
    fn fill_cells(&mut self, start: usize, end: usize, color: u8)
        requires
            start <= end < old(self).video_buffer@.len(),
            end < usize::MAX,
        ensures
            final(self).video_buffer@.len() == old(self).video_buffer@.len(),
            forall|i: int| 0 <= i < old(self).video_buffer@.len() ==> #[trigger] final(self).video_buffer@[i] == if start <= i <= end {
                color
            } else {
                old(self).video_buffer@[i]
            },
            final(self).video_width_px == old(self).video_width_px,
            final(self).video_height_px == old(self).video_height_px,
            final(self).pitch == old(self).pitch,
            final(self).mode_value == old(self).mode_value,
            final(self).color_depth_bits == old(self).color_depth_bits,
            final(self).pixel_width == old(self).pixel_width,
    {
        let mut i: usize = start;
        while i <= end
            invariant
                start <= i <= end + 1,
                end < self.video_buffer@.len(),
                end < usize::MAX,
                self.video_buffer@.len() == old(self).video_buffer@.len(),
                forall|j: int| 0 <= j < old(self).video_buffer@.len() ==> #[trigger] self.video_buffer@[j] == if start <= j < i {
                    color
                } else {
                    old(self).video_buffer@[j]
                },
                self.video_width_px == old(self).video_width_px,
                self.video_height_px == old(self).video_height_px,
                self.pitch == old(self).pitch,
                self.mode_value == old(self).mode_value,
                self.color_depth_bits == old(self).color_depth_bits,
                self.pixel_width == old(self).pixel_width,
            decreases end + 1 - i,
        {
            self.video_buffer.set(i, color);
            i = i + 1;
        }
    }

    /// Fills the triangle with apex (`x0`, `y0`) and flat base on row `y2`
    /// from `x1` to `x2`, row by row from the apex down; nothing where the
    /// base is the apex's row.
    fn vga13h_fill_bottom_flat_triangle(
        &mut self,
        x0: usize,
        y0: usize,
        x1: usize,
        y1: usize,
        x2: usize,
        y2: usize,
        color: u8,
    )
        requires
            old(self).linear_wf(),
            old(self).video_width_px * 65536 < isize::MAX,
            old(self).video_buffer@.len() <= isize::MAX,
            x0 <= old(self).video_width_px,
            x1 <= old(self).video_width_px,
            x2 <= old(self).video_width_px,
            y0 <= y1,
            y1 == y2,
            y2 <= old(self).video_height_px,
            bottom_fits(x0 as int, y0 as int, x1 as int, x2 as int, y2 as int, old(self).pitch as int, old(self).video_buffer@.len() as int),
        ensures
            final(self).linear_wf(),
            final(self).video_width_px == old(self).video_width_px,
            final(self).video_height_px == old(self).video_height_px,
            final(self).pitch == old(self).pitch,
            final(self).mode_value == old(self).mode_value,
            final(self).video_buffer@.len() == old(self).video_buffer@.len(),
            forall|i: int| 0 <= i < old(self).video_buffer@.len() ==> #[trigger] final(self).video_buffer@[i] == if bottom_covers(
                x0 as int,
                y0 as int,
                x1 as int,
                x2 as int,
                y2 as int,
                old(self).pitch as int,
                i,
            ) {
                color
            } else {
                old(self).video_buffer@[i]
            },
    {
        let ghost old_buf = self.video_buffer@;
        let ghost pitch = self.pitch as int;
        let ghost len = old_buf.len() as int;
        let w = self.video_width_px;
        proof {
            let h = self.video_height_px as int;
            assert(h <= len) by (nonlinear_arith)
                requires
                    w * h <= len,
                    w >= 1,
                    h >= 0,
            ;
            assert(w * 65536 >= w) by (nonlinear_arith)
                requires
                    w >= 0,
            ;
        }
        let limit = w as isize;
        let x0_i = x0 as isize;
        let x1_i = x1 as isize;
        let x2_i = x2 as isize;
        let dy1: isize = y1 as isize - y0 as isize;
        let dy2: isize = y2 as isize - y0 as isize;
        if dy1 == 0 || dy2 == 0 {
            assert forall|i: int| 0 <= i < len implies #[trigger] self.video_buffer@[i] == if bottom_covers(
                x0 as int, y0 as int, x1 as int, x2 as int, y2 as int, pitch, i) { color } else { old_buf[i] } by {}
            return;
        }
        let dy = dy2;
        let ghost dyg = dy as int;
        proof {
            lemma_bottom_span_bounds(x0 as int, x1 as int, x2 as int, dyg, dyg);
            let e = bottom_span(x0 as int, x1 as int, x2 as int, dyg, dyg).1;
            assert((y0 + dyg) * pitch + e < len);
            assert(y2 < len) by (nonlinear_arith)
                requires
                    (y0 + dyg) * pitch + e < len,
                    y0 + dyg == y2,
                    pitch >= 1,
                    e >= 0,
                    y2 >= 0,
            ;
        }
        let mut slope1 = fixed_edge_slope(x1_i - x0_i, dy1, limit);
        let mut slope2 = fixed_edge_slope(x2_i - x0_i, dy2, limit);
        if slope2 < slope1 {
            let t = slope1;
            slope1 = slope2;
            slope2 = t;
        }
        assert((slope1 as int, slope2 as int) == bottom_slopes(x0 as int, x1 as int, x2 as int, dyg));
        assert(x0_i * 65536 <= limit * 65536) by (nonlinear_arith)
            requires
                0 <= x0_i <= limit,
        ;
        let mut line_x1: isize = x0_i * 65536;
        let mut line_x2: isize = x0_i * 65536;
        let mut k: isize = 0;
        while k <= dy
            invariant
                0 <= k <= dy + 1,
                dy == dyg,
                dyg == y2 - y0,
                dyg > 0,
                y0 + dyg <= self.video_height_px,
                y0 + dyg < len,
                self.linear_wf(),
                self.pitch == pitch,
                self.video_width_px == w,
                w as int == limit as int,
                self.video_height_px == old(self).video_height_px,
                self.mode_value == old(self).mode_value,
                self.video_buffer@.len() == len,
                len <= isize::MAX,
                limit * 65536 < isize::MAX,
                x0 <= w,
                x1 <= w,
                x2 <= w,
                (slope1 as int, slope2 as int) == bottom_slopes(x0 as int, x1 as int, x2 as int, dyg),
                k <= dy ==> line_x1 == x0 * 65536 + k * slope1,
                k <= dy ==> line_x2 == x0 * 65536 + k * slope2,
                bottom_fits(x0 as int, y0 as int, x1 as int, x2 as int, y2 as int, pitch, len),
                forall|i: int| 0 <= i < len ==> #[trigger] self.video_buffer@[i] == if exists|k2: int| 0 <= k2 < k
                    && #[trigger] bottom_row_covers(x0 as int, y0 as int, x1 as int, x2 as int, dyg, pitch, k2, i) {
                    color
                } else {
                    old_buf[i]
                },
            decreases dy + 1 - k,
        {
            proof {
                lemma_bottom_span_bounds(x0 as int, x1 as int, x2 as int, dyg, k as int);
            }
            let start = ((line_x1 as usize) + 0x8000) / 65536;
            let end = ((line_x2 as usize) + 0x8000) / 65536;
            let ghost span = bottom_span(x0 as int, x1 as int, x2 as int, dyg, k as int);
            assert(start == span.0 && end == span.1);
            let row = y0 + k as usize;
            assert(row * pitch + span.1 < len);
            assert(0 <= row * pitch) by (nonlinear_arith)
                requires
                    row >= 0,
                    pitch >= 0,
            ;
            let base = row * self.pitch;
            let ghost before = self.video_buffer@;
            self.fill_cells(base + start, base + end, color);
            assert forall|i: int| 0 <= i < len implies #[trigger] self.video_buffer@[i] == if exists|k2: int| 0 <= k2 < k + 1
                && #[trigger] bottom_row_covers(x0 as int, y0 as int, x1 as int, x2 as int, dyg, pitch, k2, i) {
                color
            } else {
                old_buf[i]
            } by {
                if bottom_row_covers(x0 as int, y0 as int, x1 as int, x2 as int, dyg, pitch, k as int, i) {
                    assert(base + start <= i <= base + end);
                } else {
                    assert(!(base + start <= i <= base + end));
                    if exists|k2: int| 0 <= k2 < k + 1 && #[trigger] bottom_row_covers(x0 as int, y0 as int, x1 as int, x2 as int, dyg, pitch, k2, i) {
                        let k2 = choose|k2: int| 0 <= k2 < k + 1 && #[trigger] bottom_row_covers(x0 as int, y0 as int, x1 as int, x2 as int, dyg, pitch, k2, i);
                        assert(k2 < k);
                    }
                }
            }
            if k < dy {
                proof {
                    lemma_step(k as int, slope1 as int);
                    lemma_step(k as int, slope2 as int);
                    lemma_bottom_span_bounds(x0 as int, x1 as int, x2 as int, dyg, k + 1);
                    lemma_edge_between(x0 as int, x1 as int, dyg, k + 1);
                    lemma_edge_between(x0 as int, x2 as int, dyg, k + 1);
                }
                line_x1 = line_x1 + slope1;
                line_x2 = line_x2 + slope2;
            }
            k = k + 1;
        }
        assert forall|i: int| 0 <= i < len implies #[trigger] self.video_buffer@[i] == if bottom_covers(
            x0 as int, y0 as int, x1 as int, x2 as int, y2 as int, pitch, i) { color } else { old_buf[i] } by {
            if bottom_covers(x0 as int, y0 as int, x1 as int, x2 as int, y2 as int, pitch, i) {
                let k2 = choose|k2: int| 0 <= k2 <= dyg && #[trigger] bottom_row_covers(x0 as int, y0 as int, x1 as int, x2 as int, dyg, pitch, k2, i);
                assert(0 <= k2 < k);
            }
        }
    }

    /// Fills the triangle with flat top on row `y0` from `x0` to `x1` and
    /// apex (`x2`, `y2`), row by row from the apex up; nothing where the
    /// apex is on the top row.
    fn vga13h_fill_top_flat_triangle(
        &mut self,
        x0: usize,
        y0: usize,
        x1: usize,
        y1: usize,
        x2: usize,
        y2: usize,
        color: u8,
    )
        requires
            old(self).linear_wf(),
            old(self).video_width_px * 65536 < isize::MAX,
            old(self).video_buffer@.len() <= isize::MAX,
            x0 <= old(self).video_width_px,
            x1 <= old(self).video_width_px,
            x2 <= old(self).video_width_px,
            y0 == y1,
            y1 <= y2,
            y2 <= old(self).video_height_px,
            top_fits(x0 as int, x1 as int, y0 as int, x2 as int, y2 as int, old(self).pitch as int, old(self).video_buffer@.len() as int),
        ensures
            final(self).linear_wf(),
            final(self).video_width_px == old(self).video_width_px,
            final(self).video_height_px == old(self).video_height_px,
            final(self).pitch == old(self).pitch,
            final(self).mode_value == old(self).mode_value,
            final(self).video_buffer@.len() == old(self).video_buffer@.len(),
            forall|i: int| 0 <= i < old(self).video_buffer@.len() ==> #[trigger] final(self).video_buffer@[i] == if top_covers(
                x0 as int,
                x1 as int,
                y0 as int,
                x2 as int,
                y2 as int,
                old(self).pitch as int,
                i,
            ) {
                color
            } else {
                old(self).video_buffer@[i]
            },
    {
        let ghost old_buf = self.video_buffer@;
        let ghost pitch = self.pitch as int;
        let ghost len = old_buf.len() as int;
        let w = self.video_width_px;
        proof {
            let h = self.video_height_px as int;
            assert(h <= len) by (nonlinear_arith)
                requires
                    w * h <= len,
                    w >= 1,
                    h >= 0,
            ;
            assert(w * 65536 >= w) by (nonlinear_arith)
                requires
                    w >= 0,
            ;
        }
        let limit = w as isize;
        let x0_i = x0 as isize;
        let x1_i = x1 as isize;
        let x2_i = x2 as isize;
        let dy1: isize = y2 as isize - y0 as isize;
        let dy2: isize = y2 as isize - y1 as isize;
        if dy1 == 0 || dy2 == 0 {
            assert forall|i: int| 0 <= i < len implies #[trigger] self.video_buffer@[i] == if top_covers(
                x0 as int, x1 as int, y0 as int, x2 as int, y2 as int, pitch, i) { color } else { old_buf[i] } by {}
            return;
        }
        let dy = dy2;
        let ghost dyg = dy as int;
        proof {
            lemma_top_span_bounds(x0 as int, x1 as int, x2 as int, dyg, 0);
            let e = top_span(x0 as int, x1 as int, x2 as int, dyg, 0).1;
            assert((y2 - 0) * pitch + e < len);
            assert(y2 < len) by (nonlinear_arith)
                requires
                    (y2 - 0) * pitch + e < len,
                    pitch >= 1,
                    e >= 0,
                    y2 >= 0,
            ;
        }
        let mut slope1 = fixed_edge_slope(x2_i - x0_i, dy1, limit);
        let mut slope2 = fixed_edge_slope(x2_i - x1_i, dy2, limit);
        if slope2 > slope1 {
            let t = slope1;
            slope1 = slope2;
            slope2 = t;
        }
        assert((slope1 as int, slope2 as int) == top_slopes(x0 as int, x1 as int, x2 as int, dyg));
        assert(x2_i * 65536 <= limit * 65536) by (nonlinear_arith)
            requires
                0 <= x2_i <= limit,
        ;
        let mut line_x1: isize = x2_i * 65536;
        let mut line_x2: isize = x2_i * 65536;
        let mut k: isize = 0;
        while k <= dy
            invariant
                0 <= k <= dy + 1,
                dy == dyg,
                dyg == y2 - y0,
                dyg > 0,
                y2 <= self.video_height_px,
                y2 < len,
                self.linear_wf(),
                self.pitch == pitch,
                self.video_width_px == w,
                w as int == limit as int,
                self.video_height_px == old(self).video_height_px,
                self.mode_value == old(self).mode_value,
                self.video_buffer@.len() == len,
                len <= isize::MAX,
                limit * 65536 < isize::MAX,
                x0 <= w,
                x1 <= w,
                x2 <= w,
                (slope1 as int, slope2 as int) == top_slopes(x0 as int, x1 as int, x2 as int, dyg),
                k <= dy ==> line_x1 == x2 * 65536 - k * slope1,
                k <= dy ==> line_x2 == x2 * 65536 - k * slope2,
                top_fits(x0 as int, x1 as int, y0 as int, x2 as int, y2 as int, pitch, len),
                forall|i: int| 0 <= i < len ==> #[trigger] self.video_buffer@[i] == if exists|k2: int| 0 <= k2 < k
                    && #[trigger] top_row_covers(x0 as int, x1 as int, x2 as int, y2 as int, dyg, pitch, k2, i) {
                    color
                } else {
                    old_buf[i]
                },
            decreases dy + 1 - k,
        {
            proof {
                lemma_top_span_bounds(x0 as int, x1 as int, x2 as int, dyg, k as int);
            }
            let start = ((line_x1 as usize) + 0x8000) / 65536;
            let end = ((line_x2 as usize) + 0x8000) / 65536;
            let ghost span = top_span(x0 as int, x1 as int, x2 as int, dyg, k as int);
            assert(start == span.0 && end == span.1);
            let row = y2 - k as usize;
            assert(row * pitch + span.1 < len);
            assert(0 <= row * pitch) by (nonlinear_arith)
                requires
                    row >= 0,
                    pitch >= 0,
            ;
            let base = row * self.pitch;
            let ghost before = self.video_buffer@;
            self.fill_cells(base + start, base + end, color);
            assert forall|i: int| 0 <= i < len implies #[trigger] self.video_buffer@[i] == if exists|k2: int| 0 <= k2 < k + 1
                && #[trigger] top_row_covers(x0 as int, x1 as int, x2 as int, y2 as int, dyg, pitch, k2, i) {
                color
            } else {
                old_buf[i]
            } by {
                if top_row_covers(x0 as int, x1 as int, x2 as int, y2 as int, dyg, pitch, k as int, i) {
                    assert(base + start <= i <= base + end);
                } else {
                    assert(!(base + start <= i <= base + end));
                    if exists|k2: int| 0 <= k2 < k + 1 && #[trigger] top_row_covers(x0 as int, x1 as int, x2 as int, y2 as int, dyg, pitch, k2, i) {
                        let k2 = choose|k2: int| 0 <= k2 < k + 1 && #[trigger] top_row_covers(x0 as int, x1 as int, x2 as int, y2 as int, dyg, pitch, k2, i);
                        assert(k2 < k);
                    }
                }
            }
            if k < dy {
                proof {
                    lemma_step(k as int, slope1 as int);
                    lemma_step(k as int, slope2 as int);
                    lemma_top_span_bounds(x0 as int, x1 as int, x2 as int, dyg, k + 1);
                    lemma_top_edge(x0 as int, x2 as int, dyg, k + 1);
                    lemma_top_edge(x1 as int, x2 as int, dyg, k + 1);
                }
                line_x1 = line_x1 - slope1;
                line_x2 = line_x2 - slope2;
            }
            k = k + 1;
        }
        assert forall|i: int| 0 <= i < len implies #[trigger] self.video_buffer@[i] == if top_covers(
            x0 as int, x1 as int, y0 as int, x2 as int, y2 as int, pitch, i) { color } else { old_buf[i] } by {
            if top_covers(x0 as int, x1 as int, y0 as int, x2 as int, y2 as int, pitch, i) {
                let k2 = choose|k2: int| 0 <= k2 <= dyg && #[trigger] top_row_covers(x0 as int, x1 as int, x2 as int, y2 as int, dyg, pitch, k2, i);
                assert(0 <= k2 < k);
            }
        }
    }

    /// Fills the triangle with corners (`x0`, `y0`), (`x1`, `y1`) and
    /// (`x2`, `y2`) with `color`, nothing if a corner lies beyond the
    /// screen's width or height. The corners are ordered by row; a triangle
    /// with a flat bottom or top is filled as it is, any other as the
    /// flat-bottomed part above its middle corner's row and the flat-topped
    /// part below it, cut where the long side crosses that row.
    pub fn _vga13h_fill_triangle(
        &mut self,
        x0: usize,
        y0: usize,
        x1: usize,
        y1: usize,
        x2: usize,
        y2: usize,
        color: u8,
    )
        requires
            old(self).linear_wf(),
            old(self).video_width_px * 65536 < isize::MAX,
            old(self).video_buffer@.len() <= isize::MAX,
            on_screen(x0, y0, x1, y1, x2, y2, old(self).video_width_px, old(self).video_height_px) ==> triangle_fits(
                (x0 as int, y0 as int, x1 as int, y1 as int, x2 as int, y2 as int),
                old(self).pitch as int,
                old(self).video_buffer@.len() as int,
            ),
        ensures
            final(self).linear_wf(),
            final(self).video_width_px == old(self).video_width_px,
            final(self).video_height_px == old(self).video_height_px,
            final(self).pitch == old(self).pitch,
            final(self).mode_value == old(self).mode_value,
            final(self).video_buffer@.len() == old(self).video_buffer@.len(),
            forall|i: int| 0 <= i < old(self).video_buffer@.len() ==> #[trigger] final(self).video_buffer@[i] == if on_screen(
                x0,
                y0,
                x1,
                y1,
                x2,
                y2,
                old(self).video_width_px,
                old(self).video_height_px,
            ) && triangle_covers(
                (x0 as int, y0 as int, x1 as int, y1 as int, x2 as int, y2 as int),
                old(self).pitch as int,
                i,
            ) {
                color
            } else {
                old(self).video_buffer@[i]
            },
    {
        let ghost old_buf = self.video_buffer@;
        let ghost c = (x0 as int, y0 as int, x1 as int, y1 as int, x2 as int, y2 as int);
        let w = self.video_width_px;
        let h = self.video_height_px;
        if x0 > w || y0 > h || x1 > w || y1 > h || x2 > w || y2 > h {
            return;
        }
        let (mut x0, mut y0, mut x1, mut y1, mut x2, mut y2) = (x0, y0, x1, y1, x2, y2);
        if y0 > y2 {
            let (tx, ty) = (x0, y0);
            x0 = x2;
            y0 = y2;
            x2 = tx;
            y2 = ty;
        }
        if y1 > y2 {
            let (tx, ty) = (x1, y1);
            x1 = x2;
            y1 = y2;
            x2 = tx;
            y2 = ty;
        }
        if y0 > y1 {
            let (tx, ty) = (x0, y0);
            x0 = x1;
            y0 = y1;
            x1 = tx;
            y1 = ty;
        }
        let ghost st = (x0 as int, y0 as int, x1 as int, y1 as int, x2 as int, y2 as int);
        assert(st == sort_corners(c));
        if y1 == y2 {
            self.vga13h_fill_bottom_flat_triangle(x0, y0, x1, y1, x2, y2, color);
        } else if y0 == y1 {
            self.vga13h_fill_top_flat_triangle(x0, y0, x1, y1, x2, y2, color);
        } else {
            let ghost len = old_buf.len() as int;
            proof {
                assert(h <= len) by (nonlinear_arith)
                    requires
                        w * h <= len,
                        w >= 1,
                        h >= 0,
                ;
                assert(w <= w * 65536) by (nonlinear_arith)
                    requires
                        w >= 0,
                ;
                assert(-(w * h) <= (x2 - x0) * (y1 - y0) <= w * h) by (nonlinear_arith)
                    requires
                        x0 <= w,
                        x2 <= w,
                        0 <= y1 - y0 <= h,
                ;
                lemma_split_between(x0 as int, x2 as int, y1 - y0, y2 - y0);
            }
            let dx = ((x2 as isize - x0 as isize) * (y1 as isize - y0 as isize)) / (y2 as isize - y0 as isize);
            let x_split = (x0 as isize + dx) as usize;
            assert(x_split == split_column(st));
            self.vga13h_fill_bottom_flat_triangle(x0, y0, x1, y1, x_split, y1, color);
            let ghost mid = self.video_buffer@;
            self.vga13h_fill_top_flat_triangle(x1, y1, x_split, y1, x2, y2, color);
        }
    }
}

} // verus!
