//! Ellipses in the linear 256-colour mode, by a midpoint walk in two
//! regions: first while the outline is flatter than 45 degrees, stepping
//! along columns, then stepping along rows down to the middle row. Each
//! point of the walk stands for its four mirror images about the centre.
use vstd::prelude::*;
use crate::vga::vga_graphics::VgaVideoMode;

verus! {

/// A point of the walk: the offsets from the centre, the two slope terms
/// and the decision term.
pub type WalkState = (int, int, int, int, int);

/// Whether `v` is a value of `isize`.
pub open spec fn fits(v: int) -> bool {
    isize::MIN as int <= v <= isize::MAX as int
}

/// A square is not negative.
pub proof fn lemma_square_nonneg(w: int)
    ensures
        w * w >= 0,
{
    assert(w * w >= 0) by (nonlinear_arith);
}

/// Where the walk starts for an ellipse of `w` by `h` centred at column
/// `x`: at the top, with the decision term made from the centre's column.
pub open spec fn ellipse_start(x: int, w: int, h: int) -> WalkState {
    (0, h, 0, h * (w * w * 2), h * h + (x * x) / 4 - w * w * h)
}

/// One step of the first region: always a column on, and a row in where
/// the decision term is not negative.
pub open spec fn region1_step(s: WalkState, w: int, h: int) -> WalkState {
    let (xp, yp, dx, dy, d) = s;
    let dx2 = dx + h * h * 2;
    if d < 0 {
        (xp + 1, yp, dx2, dy, d + dx2 + h * h)
    } else {
        let dy2 = dy - w * w * 2;
        (xp + 1, yp - 1, dx2, dy2, d + dx2 - dy2 + h * h)
    }
}

/// The measure the first region's walk runs down.
pub open spec fn region1_measure(s: WalkState) -> int {
    if s.3 - s.2 > 0 {
        s.3 - s.2
    } else {
        0
    }
}

/// The points the first region's walk visits from `s`: while the first
/// slope term is below the second.
pub open spec fn region1_points(s: WalkState, w: int, h: int) -> Seq<WalkState>
    decreases region1_measure(s),
{
    if s.2 < s.3 && h * h > 0 {
        proof {
            lemma_square_nonneg(w);
        }
        seq![s] + region1_points(region1_step(s, w, h), w, h)
    } else {
        Seq::empty()
    }
}

/// Where the first region's walk from `s` ends.
pub open spec fn region1_end(s: WalkState, w: int, h: int) -> WalkState
    decreases region1_measure(s),
{
    if s.2 < s.3 && h * h > 0 {
        proof {
            lemma_square_nonneg(w);
        }
        region1_end(region1_step(s, w, h), w, h)
    } else {
        s
    }
}

/// The second region's first point: the first region's last offsets and
/// slope terms, with the decision term made afresh.
pub open spec fn region2_start(e: WalkState, w: int, h: int) -> WalkState {
    (e.0, e.1, e.2, e.3, h * h * (e.0 * e.0) + w * w * ((e.1 - 1) * (e.1 - 1)) - w * w * (h * h))
}

/// One step of the second region: always a row in, and a column on where
/// the decision term is not positive.
pub open spec fn region2_step(s: WalkState, x: int, w: int, h: int) -> WalkState {
    let (xp, yp, dx, dy, d) = s;
    let dy2 = dy - w * w * 2;
    if d > 0 {
        (xp, yp - 1, dx, dy2, d + w * w - dy2)
    } else {
        let dx2 = dx + h * h * 2;
        (xp + 1, yp - 1, dx2, dy2, d + dx2 - dy2 + x * x)
    }
}

/// The measure the second region's walk runs down.
pub open spec fn region2_measure(s: WalkState) -> int {
    if s.1 + 1 > 0 {
        s.1 + 1
    } else {
        0
    }
}

/// The points the second region's walk visits from `s`: down to the
/// middle row.
pub open spec fn region2_points(s: WalkState, x: int, w: int, h: int) -> Seq<WalkState>
    decreases region2_measure(s),
{
    if s.1 >= 0 {
        seq![s] + region2_points(region2_step(s, x, w, h), x, w, h)
    } else {
        Seq::empty()
    }
}

/// Every point of the ellipse's walk, first region then second.
pub open spec fn ellipse_points(x: int, w: int, h: int) -> Seq<WalkState> {
    let s0 = ellipse_start(x, w, h);
    region1_points(s0, w, h) + region2_points(region2_start(region1_end(s0, w, h), w, h), x, w, h)
}

/// Whether one point of the walk, with the ellipse centred at (`x`, `y`),
/// fills index `i`: the columns `x - xp` to `x + xp` of rows `y + yp` and
/// `y - yp`.
pub open spec fn fill_point_covers(s: WalkState, x: int, y: int, pitch: int, i: int) -> bool {
    ||| (y + s.1) * pitch + x - s.0 <= i <= (y + s.1) * pitch + x + s.0
    ||| (y - s.1) * pitch + x - s.0 <= i <= (y - s.1) * pitch + x + s.0
}

/// Whether one point of the walk draws index `i`: its four mirror images.
pub open spec fn draw_point_covers(s: WalkState, x: int, y: int, pitch: int, i: int) -> bool {
    ||| i == (y + s.1) * pitch + x + s.0
    ||| i == (y + s.1) * pitch + x - s.0
    ||| i == (y - s.1) * pitch + x - s.0
    ||| i == (y - s.1) * pitch + x + s.0
}

/// Whether the filled ellipse covers index `i`.
pub open spec fn ellipse_fill_covers(x: int, y: int, w: int, h: int, pitch: int, i: int) -> bool {
    let pts = ellipse_points(x, w, h);
    exists|j: int| 0 <= j < pts.len() && #[trigger] fill_point_covers(pts[j], x, y, pitch, i)
}

/// Whether the ellipse's outline covers index `i`.
pub open spec fn ellipse_draw_covers(x: int, y: int, w: int, h: int, pitch: int, i: int) -> bool {
    let pts = ellipse_points(x, w, h);
    exists|j: int| 0 <= j < pts.len() && #[trigger] draw_point_covers(pts[j], x, y, pitch, i)
}

/// A point whose mirror images are all in the buffer: offsets at most the
/// centre's coordinates, lowest right image below `len`.
pub open spec fn point_ok(s: WalkState, x: int, y: int, pitch: int, len: int) -> bool {
    &&& 0 <= s.0 <= x
    &&& 0 <= s.1 <= y
    &&& y + s.1 <= usize::MAX
    &&& (y + s.1) * pitch + x + s.0 < len
}

/// Every value a first-region step computes is an `isize`.
pub open spec fn region1_step_ok(s: WalkState, w: int, h: int) -> bool {
    let (xp, yp, dx, dy, d) = s;
    let dx2 = dx + h * h * 2;
    &&& fits(xp + 1)
    &&& fits(dx2)
    &&& fits(d + dx2)
    &&& if d < 0 {
        fits(d + dx2 + h * h)
    } else {
        let dy2 = dy - w * w * 2;
        &&& fits(yp - 1)
        &&& fits(dy2)
        &&& fits(d + dx2 - dy2)
        &&& fits(d + dx2 - dy2 + h * h)
    }
}

/// Every value a second-region step computes is an `isize`.
pub open spec fn region2_step_ok(s: WalkState, x: int, w: int, h: int) -> bool {
    let (xp, yp, dx, dy, d) = s;
    let dy2 = dy - w * w * 2;
    &&& fits(yp - 1)
    &&& fits(dy2)
    &&& if d > 0 {
        fits(d + w * w) && fits(d + w * w - dy2)
    } else {
        let dx2 = dx + h * h * 2;
        &&& fits(xp + 1)
        &&& fits(dx2)
        &&& fits(d + dx2)
        &&& fits(d + dx2 - dy2)
        &&& fits(d + dx2 - dy2 + x * x)
    }
}

/// Every value the start of the walk computes is an `isize`.
pub open spec fn start_ok(x: int, w: int, h: int) -> bool {
    &&& x <= isize::MAX
    &&& w <= isize::MAX
    &&& h <= isize::MAX
    &&& fits(w * w)
    &&& fits(h * h)
    &&& fits(x * x)
    &&& fits(w * w * 2)
    &&& fits(h * h * 2)
    &&& fits(h * (w * w * 2))
    &&& fits(w * w * h)
    &&& fits(h * h + (x * x) / 4)
    &&& fits(h * h + (x * x) / 4 - w * w * h)
}

/// Every value the second region's start computes is an `isize`.
pub open spec fn region2_start_ok(e: WalkState, w: int, h: int) -> bool {
    &&& fits(e.0 * e.0)
    &&& fits(h * h * (e.0 * e.0))
    &&& fits(e.1 - 1)
    &&& fits((e.1 - 1) * (e.1 - 1))
    &&& fits(w * w * ((e.1 - 1) * (e.1 - 1)))
    &&& fits(h * h * (e.0 * e.0) + w * w * ((e.1 - 1) * (e.1 - 1)))
    &&& fits(w * w * (h * h))
    &&& fits(h * h * (e.0 * e.0) + w * w * ((e.1 - 1) * (e.1 - 1)) - w * w * (h * h))
}

/// The walk of the ellipse of `w` by `h` centred at (`x`, `y`) neither
/// overflows nor leaves a buffer of `len` cells with rows `pitch` apart.
pub open spec fn ellipse_ok(x: int, y: int, w: int, h: int, pitch: int, len: int) -> bool {
    let s0 = ellipse_start(x, w, h);
    let r1 = region1_points(s0, w, h);
    let e = region1_end(s0, w, h);
    let r2 = region2_points(region2_start(e, w, h), x, w, h);
    &&& start_ok(x, w, h)
    &&& forall|j: int| 0 <= j < r1.len() ==> point_ok(#[trigger] r1[j], x, y, pitch, len) && region1_step_ok(r1[j], w, h)
    &&& region2_start_ok(e, w, h)
    &&& forall|j: int| 0 <= j < r2.len() ==> point_ok(#[trigger] r2[j], x, y, pitch, len) && region2_step_ok(r2[j], x, w, h)
}

/// The region-1 walk from `s` is `s` then the walk from its step, while
/// it goes on.
proof fn lemma_region1_unfold(s: WalkState, w: int, h: int)
    requires
        s.2 < s.3,
        h * h > 0,
    ensures
        region1_points(s, w, h) == seq![s] + region1_points(region1_step(s, w, h), w, h),
        region1_end(s, w, h) == region1_end(region1_step(s, w, h), w, h),
{
}

/// An ellipse's outline lies within the same ellipse filled: every index
/// that drawing it sets, filling it sets too.
pub proof fn law_outline_within_fill(x: int, y: int, w: int, h: int, pitch: int, len: int, i: int)
    requires
        ellipse_ok(x, y, w, h, pitch, len),
        ellipse_draw_covers(x, y, w, h, pitch, i),
    ensures
        ellipse_fill_covers(x, y, w, h, pitch, i),
{
    let s0 = ellipse_start(x, w, h);
    let r1 = region1_points(s0, w, h);
    let r2 = region2_points(region2_start(region1_end(s0, w, h), w, h), x, w, h);
    let pts = ellipse_points(x, w, h);
    assert(pts == r1 + r2);
    let j = choose|j: int| 0 <= j < pts.len() && #[trigger] draw_point_covers(pts[j], x, y, pitch, i);
    if j < r1.len() {
        assert(pts[j] == r1[j]);
        assert(point_ok(r1[j], x, y, pitch, len));
    } else {
        assert(pts[j] == r2[j - r1.len()]);
        assert(point_ok(r2[j - r1.len()], x, y, pitch, len));
    }
    assert(fill_point_covers(pts[j], x, y, pitch, i));
}

impl VgaVideoMode {
    /// Fills the columns `x - xp` to `x + xp` of rows `y + yp` and `y - yp`.
    fn fill_ellipse_point(&mut self, x: usize, y: usize, xp: isize, yp: isize, color: u8)
        requires
            0 <= xp <= x,
            0 <= yp <= y,
            y + yp <= usize::MAX,
            (y + yp) * old(self).pitch + x + xp < old(self).video_buffer@.len(),
            old(self).video_buffer@.len() <= usize::MAX,
        ensures
            final(self).video_buffer@.len() == old(self).video_buffer@.len(),
            forall|i: int| 0 <= i < old(self).video_buffer@.len() ==> #[trigger] final(self).video_buffer@[i] == if fill_point_covers(
                (xp as int, yp as int, 0, 0, 0),
                x as int,
                y as int,
                old(self).pitch as int,
                i,
            ) {
                color
            } else {
                old(self).video_buffer@[i]
            },
            final(self).video_width_px == old(self).video_width_px,
            final(self).video_height_px == old(self).video_height_px,
            final(self).pitch == old(self).pitch,
            final(self).mode_value == old(self).mode_value,
    {
        let ghost pitch = self.pitch as int;
        let ghost old_buf = self.video_buffer@;
        assert((y - yp) * pitch <= (y + yp) * pitch && 0 <= (y - yp) * pitch) by (nonlinear_arith)
            requires
                0 <= yp <= y,
                pitch >= 0,
        ;
        let row1 = (yp as usize + y) * self.pitch;
        let row2 = (y - yp as usize) * self.pitch;
        let lo = x - xp as usize;
        let hi = x + xp as usize;
        let mut i = lo;
        while i <= hi
            invariant
                lo <= i <= hi + 1,
                row2 <= row1,
                old_buf.len() <= usize::MAX,
                row1 + hi < old_buf.len(),
                self.video_buffer@.len() == old_buf.len(),
                self.video_width_px == old(self).video_width_px,
                self.video_height_px == old(self).video_height_px,
                self.pitch == old(self).pitch,
                self.mode_value == old(self).mode_value,
                forall|j: int| 0 <= j < old_buf.len() ==> #[trigger] self.video_buffer@[j] == if (row1 + lo <= j < row1 + i) || (row2 + lo
                    <= j < row2 + i) {
                    color
                } else {
                    old_buf[j]
                },
            decreases hi + 1 - i,
        {
            self.video_buffer.set(row1 + i, color);
            self.video_buffer.set(row2 + i, color);
            i = i + 1;
        }
    }

    /// Fills the ellipse of `width` by `height` centred at (`x`, `y`), each
    /// point of its walk filling the span between its mirror images on its
    /// row and on the mirrored row.
    pub fn _vga13h_fill_elipse(&mut self, x: usize, y: usize, width: usize, height: usize, color: u8)
        requires
            ellipse_ok(x as int, y as int, width as int, height as int, old(self).pitch as int, old(self).video_buffer@.len() as int),
        ensures
            final(self).video_width_px == old(self).video_width_px,
            final(self).video_height_px == old(self).video_height_px,
            final(self).pitch == old(self).pitch,
            final(self).mode_value == old(self).mode_value,
            final(self).video_buffer@.len() == old(self).video_buffer@.len(),
            forall|i: int| 0 <= i < old(self).video_buffer@.len() ==> #[trigger] final(self).video_buffer@[i] == if ellipse_fill_covers(
                x as int,
                y as int,
                width as int,
                height as int,
                old(self).pitch as int,
                i,
            ) {
                color
            } else {
                old(self).video_buffer@[i]
            },
    {
        let ghost old_buf = self.video_buffer@;
        let n = self.video_buffer.len();
        let ghost len = old_buf.len() as int;
        let ghost pitch = self.pitch as int;
        let ghost (xg, yg, wg, hg) = (x as int, y as int, width as int, height as int);
        let ghost s0 = ellipse_start(xg, wg, hg);
        let ghost r1 = region1_points(s0, wg, hg);
        let ghost e = region1_end(s0, wg, hg);
        let ghost r2 = region2_points(region2_start(e, wg, hg), xg, wg, hg);
        let xi = x as isize;
        let wi = width as isize;
        let hi = height as isize;
        let wi_squared = wi * wi;
        let hi_squared = hi * hi;
        let mut xp: isize = 0;
        let mut yp: isize = hi;
        let mut dx: isize = 0;
        let mut dy: isize = yp * (wi_squared * 2);
        let mut d: isize = hi_squared + (xi * xi) / 4 - wi_squared * hi;
        assert((xp as int, yp as int, dx as int, dy as int, d as int) == s0);
        if hi == 0 {
            assert(dy == 0) by (nonlinear_arith)
                requires
                    dy == yp * (wi_squared * 2),
                    yp == 0,
            ;
        }
        let ghost mut visited: Seq<WalkState> = Seq::empty();
        while dx < dy
            invariant
                r1 == visited + region1_points((xp as int, yp as int, dx as int, dy as int, d as int), wg, hg),
                e == region1_end((xp as int, yp as int, dx as int, dy as int, d as int), wg, hg),
                hg == 0 ==> dx >= dy,
                xg == x as int,
                yg == y as int,
                wg == width as int,
                hg == height as int,
                xg >= 0,
                yg >= 0,
                wg >= 0,
                hg >= 0,
                len == n,
                wi_squared == wg * wg,
                hi_squared == hg * hg,
                xi == xg,
                wi == wg,
                hi == hg,
                ellipse_ok(xg, yg, wg, hg, pitch, len),
                s0 == ellipse_start(xg, wg, hg),
                r1 == region1_points(s0, wg, hg),
                e == region1_end(s0, wg, hg),
                r2 == region2_points(region2_start(e, wg, hg), xg, wg, hg),
                self.video_buffer@.len() == len,
                self.pitch == pitch,
                self.video_width_px == old(self).video_width_px,
                self.video_height_px == old(self).video_height_px,
                self.mode_value == old(self).mode_value,
                forall|i: int| 0 <= i < len ==> #[trigger] self.video_buffer@[i] == if exists|j: int| 0 <= j < visited.len()
                    && #[trigger] fill_point_covers(visited[j], xg, yg, pitch, i) {
                    color
                } else {
                    old_buf[i]
                },
            decreases region1_measure((xp as int, yp as int, dx as int, dy as int, d as int)),
        {
            let ghost cur = (xp as int, yp as int, dx as int, dy as int, d as int);
            proof {
                assert(hg * hg > 0) by (nonlinear_arith)
                    requires
                        hg > 0,
                ;
                lemma_region1_unfold(cur, wg, hg);
                assert(r1[visited.len() as int] == cur);
                assert(point_ok(cur, xg, yg, pitch, len));
            }
            let ghost before = self.video_buffer@;
            self.fill_ellipse_point(x, y, xp, yp, color);
            proof {
                assert forall|i: int| 0 <= i < len implies #[trigger] self.video_buffer@[i] == if exists|j: int| 0 <= j < visited.push(cur).len()
                    && #[trigger] fill_point_covers(visited.push(cur)[j], xg, yg, pitch, i) {
                    color
                } else {
                    old_buf[i]
                } by {
                    let vp = visited.push(cur);
                    if fill_point_covers(cur, xg, yg, pitch, i) {
                        assert(fill_point_covers((xp as int, yp as int, 0, 0, 0), xg, yg, pitch, i));
                        assert(vp[visited.len() as int] == cur);
                        assert(fill_point_covers(vp[visited.len() as int], xg, yg, pitch, i));
                    } else {
                        assert(!fill_point_covers((xp as int, yp as int, 0, 0, 0), xg, yg, pitch, i));
                        assert(self.video_buffer@[i] == before[i]);
                        if exists|j: int| 0 <= j < visited.len() && #[trigger] fill_point_covers(visited[j], xg, yg, pitch, i) {
                            let j = choose|j: int| 0 <= j < visited.len() && #[trigger] fill_point_covers(visited[j], xg, yg, pitch, i);
                            assert(vp[j] == visited[j]);
                            assert(fill_point_covers(vp[j], xg, yg, pitch, i));
                        }
                        if exists|j: int| 0 <= j < vp.len() && #[trigger] fill_point_covers(vp[j], xg, yg, pitch, i) {
                            let j = choose|j: int| 0 <= j < vp.len() && #[trigger] fill_point_covers(vp[j], xg, yg, pitch, i);
                            assert(j != visited.len());
                            assert(vp[j] == visited[j]);
                            assert(fill_point_covers(visited[j], xg, yg, pitch, i));
                        }
                    }
                }
                visited = visited.push(cur);
            }
            let hh2 = hi_squared * 2;
            if d < 0 {
                xp = xp + 1;
                dx = dx + hh2;
                d = d + dx;
                d = d + hi_squared;
            } else {
                let ww2 = wi_squared * 2;
                xp = xp + 1;
                yp = yp - 1;
                dx = dx + hh2;
                dy = dy - ww2;
                d = d + dx;
                d = d - dy;
                d = d + hi_squared;
            }
            proof {
                assert((xp as int, yp as int, dx as int, dy as int, d as int) == region1_step(cur, wg, hg));
                assert(visited + region1_points(region1_step(cur, wg, hg), wg, hg) =~= r1);
            }
        }
        assert(visited =~= r1);
        assert((xp as int, yp as int, dx as int, dy as int, d as int) == e);
        d = hi_squared * ((xp + 1 / 2) * (xp + 1 / 2)) + wi_squared * ((yp - 1) * (yp - 1)) - (wi_squared * hi_squared);
        assert((xp as int, yp as int, dx as int, dy as int, d as int) == region2_start(e, wg, hg));
        let ghost mut visited2: Seq<WalkState> = Seq::empty();
        while yp >= 0
            invariant
                r2 == visited2 + region2_points((xp as int, yp as int, dx as int, dy as int, d as int), xg, wg, hg),
                visited == r1 + visited2,
                xg == x as int,
                yg == y as int,
                wg == width as int,
                hg == height as int,
                xg >= 0,
                yg >= 0,
                wg >= 0,
                hg >= 0,
                len == n,
                wi_squared == wg * wg,
                hi_squared == hg * hg,
                xi == xg,
                wi == wg,
                hi == hg,
                ellipse_ok(xg, yg, wg, hg, pitch, len),
                s0 == ellipse_start(xg, wg, hg),
                r1 == region1_points(s0, wg, hg),
                e == region1_end(s0, wg, hg),
                r2 == region2_points(region2_start(e, wg, hg), xg, wg, hg),
                self.video_buffer@.len() == len,
                self.pitch == pitch,
                self.video_width_px == old(self).video_width_px,
                self.video_height_px == old(self).video_height_px,
                self.mode_value == old(self).mode_value,
                forall|i: int| 0 <= i < len ==> #[trigger] self.video_buffer@[i] == if exists|j: int| 0 <= j < visited.len()
                    && #[trigger] fill_point_covers(visited[j], xg, yg, pitch, i) {
                    color
                } else {
                    old_buf[i]
                },
            decreases region2_measure((xp as int, yp as int, dx as int, dy as int, d as int)),
        {
            let ghost cur = (xp as int, yp as int, dx as int, dy as int, d as int);
            proof {
                assert(r2[visited2.len() as int] == cur);
                assert(point_ok(cur, xg, yg, pitch, len));
                assert(region2_step_ok(cur, xg, wg, hg));
            }
            let ghost before = self.video_buffer@;
            self.fill_ellipse_point(x, y, xp, yp, color);
            proof {
                assert forall|i: int| 0 <= i < len implies #[trigger] self.video_buffer@[i] == if exists|j: int| 0 <= j < visited.push(cur).len()
                    && #[trigger] fill_point_covers(visited.push(cur)[j], xg, yg, pitch, i) {
                    color
                } else {
                    old_buf[i]
                } by {
                    let vp = visited.push(cur);
                    if fill_point_covers(cur, xg, yg, pitch, i) {
                        assert(fill_point_covers((xp as int, yp as int, 0, 0, 0), xg, yg, pitch, i));
                        assert(vp[visited.len() as int] == cur);
                        assert(fill_point_covers(vp[visited.len() as int], xg, yg, pitch, i));
                    } else {
                        assert(!fill_point_covers((xp as int, yp as int, 0, 0, 0), xg, yg, pitch, i));
                        assert(self.video_buffer@[i] == before[i]);
                        if exists|j: int| 0 <= j < visited.len() && #[trigger] fill_point_covers(visited[j], xg, yg, pitch, i) {
                            let j = choose|j: int| 0 <= j < visited.len() && #[trigger] fill_point_covers(visited[j], xg, yg, pitch, i);
                            assert(vp[j] == visited[j]);
                            assert(fill_point_covers(vp[j], xg, yg, pitch, i));
                        }
                        if exists|j: int| 0 <= j < vp.len() && #[trigger] fill_point_covers(vp[j], xg, yg, pitch, i) {
                            let j = choose|j: int| 0 <= j < vp.len() && #[trigger] fill_point_covers(vp[j], xg, yg, pitch, i);
                            assert(j != visited.len());
                            assert(vp[j] == visited[j]);
                            assert(fill_point_covers(visited[j], xg, yg, pitch, i));
                        }
                    }
                }
                visited = visited.push(cur);
                visited2 = visited2.push(cur);
            }
            let ww2 = wi_squared * 2;
            if d > 0 {
                yp = yp - 1;
                dy = dy - ww2;
                d = d + wi_squared;
                d = d - dy;
            } else {
                let hh2 = hi_squared * 2;
                yp = yp - 1;
                xp = xp + 1;
                dx = dx + hh2;
                dy = dy - ww2;
                d = d + dx;
                d = d - dy;
                d = d + xi * xi;
            }
            proof {
                assert((xp as int, yp as int, dx as int, dy as int, d as int) == region2_step(cur, xg, wg, hg));
                assert(visited2 + region2_points(region2_step(cur, xg, wg, hg), xg, wg, hg) =~= r2);
                assert(visited =~= r1 + visited2);
            }
        }
        assert(visited2 =~= r2);
        assert(visited =~= ellipse_points(xg, wg, hg));
    }

    /// Sets the four mirror images of the walk's point at offsets (`xp`,
    /// `yp`) from the centre (`x`, `y`).
    fn draw_ellipse_point(&mut self, x: usize, y: usize, xp: isize, yp: isize, color: u8)
        requires
            0 <= xp <= x,
            0 <= yp <= y,
            y + yp <= usize::MAX,
            (y + yp) * old(self).pitch + x + xp < old(self).video_buffer@.len(),
            old(self).video_buffer@.len() <= usize::MAX,
        ensures
            final(self).video_buffer@.len() == old(self).video_buffer@.len(),
            forall|i: int| 0 <= i < old(self).video_buffer@.len() ==> #[trigger] final(self).video_buffer@[i] == if draw_point_covers(
                (xp as int, yp as int, 0, 0, 0),
                x as int,
                y as int,
                old(self).pitch as int,
                i,
            ) {
                color
            } else {
                old(self).video_buffer@[i]
            },
            final(self).video_width_px == old(self).video_width_px,
            final(self).video_height_px == old(self).video_height_px,
            final(self).pitch == old(self).pitch,
            final(self).mode_value == old(self).mode_value,
    {
        let ghost pitch = self.pitch as int;
        assert((y - yp) * pitch <= (y + yp) * pitch && 0 <= (y - yp) * pitch) by (nonlinear_arith)
            requires
                0 <= yp <= y,
                pitch >= 0,
        ;
        let row1 = (yp as usize + y) * self.pitch;
        let row2 = (y - yp as usize) * self.pitch;
        self.video_buffer.set(row1 + (xp as usize + x), color);
        self.video_buffer.set(row1 + (x - xp as usize), color);
        self.video_buffer.set(row2 + (x - xp as usize), color);
        self.video_buffer.set(row2 + (xp as usize + x), color);
    }

    /// Draws the outline of the ellipse of `width` by `height` centred at
    /// (`x`, `y`): each point of its walk and its three mirror images.
    pub fn _vga13h_draw_elipse(&mut self, x: usize, y: usize, width: usize, height: usize, color: u8)
        requires
            ellipse_ok(x as int, y as int, width as int, height as int, old(self).pitch as int, old(self).video_buffer@.len() as int),
        ensures
            final(self).video_width_px == old(self).video_width_px,
            final(self).video_height_px == old(self).video_height_px,
            final(self).pitch == old(self).pitch,
            final(self).mode_value == old(self).mode_value,
            final(self).video_buffer@.len() == old(self).video_buffer@.len(),
            forall|i: int| 0 <= i < old(self).video_buffer@.len() ==> #[trigger] final(self).video_buffer@[i] == if ellipse_draw_covers(
                x as int,
                y as int,
                width as int,
                height as int,
                old(self).pitch as int,
                i,
            ) {
                color
            } else {
                old(self).video_buffer@[i]
            },
    {
        let ghost old_buf = self.video_buffer@;
        let n = self.video_buffer.len();
        let ghost len = old_buf.len() as int;
        let ghost pitch = self.pitch as int;
        let ghost (xg, yg, wg, hg) = (x as int, y as int, width as int, height as int);
        let ghost s0 = ellipse_start(xg, wg, hg);
        let ghost r1 = region1_points(s0, wg, hg);
        let ghost e = region1_end(s0, wg, hg);
        let ghost r2 = region2_points(region2_start(e, wg, hg), xg, wg, hg);
        let xi = x as isize;
        let wi = width as isize;
        let hi = height as isize;
        let wi_squared = wi * wi;
        let hi_squared = hi * hi;
        let mut xp: isize = 0;
        let mut yp: isize = hi;
        let mut dx: isize = 0;
        let mut dy: isize = yp * (wi_squared * 2);
        let mut d: isize = hi_squared + (xi * xi) / 4 - wi_squared * hi;
        assert((xp as int, yp as int, dx as int, dy as int, d as int) == s0);
        if hi == 0 {
            assert(dy == 0) by (nonlinear_arith)
                requires
                    dy == yp * (wi_squared * 2),
                    yp == 0,
            ;
        }
        let ghost mut visited: Seq<WalkState> = Seq::empty();
        while dx < dy
            invariant
                r1 == visited + region1_points((xp as int, yp as int, dx as int, dy as int, d as int), wg, hg),
                e == region1_end((xp as int, yp as int, dx as int, dy as int, d as int), wg, hg),
                hg == 0 ==> dx >= dy,
                xg == x as int,
                yg == y as int,
                wg == width as int,
                hg == height as int,
                xg >= 0,
                yg >= 0,
                wg >= 0,
                hg >= 0,
                len == n,
                wi_squared == wg * wg,
                hi_squared == hg * hg,
                xi == xg,
                wi == wg,
                hi == hg,
                ellipse_ok(xg, yg, wg, hg, pitch, len),
                s0 == ellipse_start(xg, wg, hg),
                r1 == region1_points(s0, wg, hg),
                e == region1_end(s0, wg, hg),
                r2 == region2_points(region2_start(e, wg, hg), xg, wg, hg),
                self.video_buffer@.len() == len,
                self.pitch == pitch,
                self.video_width_px == old(self).video_width_px,
                self.video_height_px == old(self).video_height_px,
                self.mode_value == old(self).mode_value,
                forall|i: int| 0 <= i < len ==> #[trigger] self.video_buffer@[i] == if exists|j: int| 0 <= j < visited.len()
                    && #[trigger] draw_point_covers(visited[j], xg, yg, pitch, i) {
                    color
                } else {
                    old_buf[i]
                },
            decreases region1_measure((xp as int, yp as int, dx as int, dy as int, d as int)),
        {
            let ghost cur = (xp as int, yp as int, dx as int, dy as int, d as int);
            proof {
                assert(hg * hg > 0) by (nonlinear_arith)
                    requires
                        hg > 0,
                ;
                lemma_region1_unfold(cur, wg, hg);
                assert(r1[visited.len() as int] == cur);
                assert(point_ok(cur, xg, yg, pitch, len));
            }
            let ghost before = self.video_buffer@;
            self.draw_ellipse_point(x, y, xp, yp, color);
            proof {
                assert forall|i: int| 0 <= i < len implies #[trigger] self.video_buffer@[i] == if exists|j: int| 0 <= j < visited.push(cur).len()
                    && #[trigger] draw_point_covers(visited.push(cur)[j], xg, yg, pitch, i) {
                    color
                } else {
                    old_buf[i]
                } by {
                    let vp = visited.push(cur);
                    if draw_point_covers(cur, xg, yg, pitch, i) {
                        assert(draw_point_covers((xp as int, yp as int, 0, 0, 0), xg, yg, pitch, i));
                        assert(vp[visited.len() as int] == cur);
                        assert(draw_point_covers(vp[visited.len() as int], xg, yg, pitch, i));
                    } else {
                        assert(!draw_point_covers((xp as int, yp as int, 0, 0, 0), xg, yg, pitch, i));
                        assert(self.video_buffer@[i] == before[i]);
                        if exists|j: int| 0 <= j < visited.len() && #[trigger] draw_point_covers(visited[j], xg, yg, pitch, i) {
                            let j = choose|j: int| 0 <= j < visited.len() && #[trigger] draw_point_covers(visited[j], xg, yg, pitch, i);
                            assert(vp[j] == visited[j]);
                            assert(draw_point_covers(vp[j], xg, yg, pitch, i));
                        }
                        if exists|j: int| 0 <= j < vp.len() && #[trigger] draw_point_covers(vp[j], xg, yg, pitch, i) {
                            let j = choose|j: int| 0 <= j < vp.len() && #[trigger] draw_point_covers(vp[j], xg, yg, pitch, i);
                            assert(j != visited.len());
                            assert(vp[j] == visited[j]);
                            assert(draw_point_covers(visited[j], xg, yg, pitch, i));
                        }
                    }
                }
                visited = visited.push(cur);
            }
            let hh2 = hi_squared * 2;
            if d < 0 {
                xp = xp + 1;
                dx = dx + hh2;
                d = d + dx;
                d = d + hi_squared;
            } else {
                let ww2 = wi_squared * 2;
                xp = xp + 1;
                yp = yp - 1;
                dx = dx + hh2;
                dy = dy - ww2;
                d = d + dx;
                d = d - dy;
                d = d + hi_squared;
            }
            proof {
                assert((xp as int, yp as int, dx as int, dy as int, d as int) == region1_step(cur, wg, hg));
                assert(visited + region1_points(region1_step(cur, wg, hg), wg, hg) =~= r1);
            }
        }
        assert(visited =~= r1);
        assert((xp as int, yp as int, dx as int, dy as int, d as int) == e);
        d = hi_squared * ((xp + 1 / 2) * (xp + 1 / 2)) + wi_squared * ((yp - 1) * (yp - 1)) - (wi_squared * hi_squared);
        assert((xp as int, yp as int, dx as int, dy as int, d as int) == region2_start(e, wg, hg));
        let ghost mut visited2: Seq<WalkState> = Seq::empty();
        while yp >= 0
            invariant
                r2 == visited2 + region2_points((xp as int, yp as int, dx as int, dy as int, d as int), xg, wg, hg),
                visited == r1 + visited2,
                xg == x as int,
                yg == y as int,
                wg == width as int,
                hg == height as int,
                xg >= 0,
                yg >= 0,
                wg >= 0,
                hg >= 0,
                len == n,
                wi_squared == wg * wg,
                hi_squared == hg * hg,
                xi == xg,
                wi == wg,
                hi == hg,
                ellipse_ok(xg, yg, wg, hg, pitch, len),
                s0 == ellipse_start(xg, wg, hg),
                r1 == region1_points(s0, wg, hg),
                e == region1_end(s0, wg, hg),
                r2 == region2_points(region2_start(e, wg, hg), xg, wg, hg),
                self.video_buffer@.len() == len,
                self.pitch == pitch,
                self.video_width_px == old(self).video_width_px,
                self.video_height_px == old(self).video_height_px,
                self.mode_value == old(self).mode_value,
                forall|i: int| 0 <= i < len ==> #[trigger] self.video_buffer@[i] == if exists|j: int| 0 <= j < visited.len()
                    && #[trigger] draw_point_covers(visited[j], xg, yg, pitch, i) {
                    color
                } else {
                    old_buf[i]
                },
            decreases region2_measure((xp as int, yp as int, dx as int, dy as int, d as int)),
        {
            let ghost cur = (xp as int, yp as int, dx as int, dy as int, d as int);
            proof {
                assert(r2[visited2.len() as int] == cur);
                assert(point_ok(cur, xg, yg, pitch, len));
                assert(region2_step_ok(cur, xg, wg, hg));
            }
            let ghost before = self.video_buffer@;
            self.draw_ellipse_point(x, y, xp, yp, color);
            proof {
                assert forall|i: int| 0 <= i < len implies #[trigger] self.video_buffer@[i] == if exists|j: int| 0 <= j < visited.push(cur).len()
                    && #[trigger] draw_point_covers(visited.push(cur)[j], xg, yg, pitch, i) {
                    color
                } else {
                    old_buf[i]
                } by {
                    let vp = visited.push(cur);
                    if draw_point_covers(cur, xg, yg, pitch, i) {
                        assert(draw_point_covers((xp as int, yp as int, 0, 0, 0), xg, yg, pitch, i));
                        assert(vp[visited.len() as int] == cur);
                        assert(draw_point_covers(vp[visited.len() as int], xg, yg, pitch, i));
                    } else {
                        assert(!draw_point_covers((xp as int, yp as int, 0, 0, 0), xg, yg, pitch, i));
                        assert(self.video_buffer@[i] == before[i]);
                        if exists|j: int| 0 <= j < visited.len() && #[trigger] draw_point_covers(visited[j], xg, yg, pitch, i) {
                            let j = choose|j: int| 0 <= j < visited.len() && #[trigger] draw_point_covers(visited[j], xg, yg, pitch, i);
                            assert(vp[j] == visited[j]);
                            assert(draw_point_covers(vp[j], xg, yg, pitch, i));
                        }
                        if exists|j: int| 0 <= j < vp.len() && #[trigger] draw_point_covers(vp[j], xg, yg, pitch, i) {
                            let j = choose|j: int| 0 <= j < vp.len() && #[trigger] draw_point_covers(vp[j], xg, yg, pitch, i);
                            assert(j != visited.len());
                            assert(vp[j] == visited[j]);
                            assert(draw_point_covers(visited[j], xg, yg, pitch, i));
                        }
                    }
                }
                visited = visited.push(cur);
                visited2 = visited2.push(cur);
            }
            let ww2 = wi_squared * 2;
            if d > 0 {
                yp = yp - 1;
                dy = dy - ww2;
                d = d + wi_squared;
                d = d - dy;
            } else {
                let hh2 = hi_squared * 2;
                yp = yp - 1;
                xp = xp + 1;
                dx = dx + hh2;
                dy = dy - ww2;
                d = d + dx;
                d = d - dy;
                d = d + xi * xi;
            }
            proof {
                assert((xp as int, yp as int, dx as int, dy as int, d as int) == region2_step(cur, xg, wg, hg));
                assert(visited2 + region2_points(region2_step(cur, xg, wg, hg), xg, wg, hg) =~= r2);
                assert(visited =~= r1 + visited2);
            }
        }
        assert(visited2 =~= r2);
        assert(visited =~= ellipse_points(xg, wg, hg));
    }
}

} // verus!
