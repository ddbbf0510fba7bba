//! Straight lines in the linear graphics mode: Bresenham's walk from one
//! end to the other, and triangles made of three lines.
use vstd::prelude::*;
use crate::vga::vga_graphics::{lemma_cell_unique, lemma_pixel_in_screen, lemma_pixel_index, VgaVideoMode};

verus! {

/// The two ends of a line, as (x0, y0, x1, y1).
pub type LineEnds = (int, int, int, int);

/// The walk's state: the error term and the current pixel.
pub type WalkState = (int, int, int);

pub open spec fn abs(v: int) -> int {
    if v < 0 {
        -v
    } else {
        v
    }
}

/// The direction of a step from `from` towards `to`.
pub open spec fn step_dir(from: int, to: int) -> int {
    if from < to {
        1
    } else {
        -1
    }
}

/// One step of the walk: the error term decides whether it moves along x,
/// along y, or both.
pub open spec fn walk_step(p: LineEnds, s: WalkState) -> WalkState {
    let dx = abs(p.2 - p.0);
    let dy = -abs(p.3 - p.1);
    let e2 = 2 * s.0;
    let err1 = if dy <= e2 { s.0 + dy } else { s.0 };
    let x = if dy <= e2 { s.1 + step_dir(p.0, p.2) } else { s.1 };
    let err2 = if e2 <= dx { err1 + dx } else { err1 };
    let y = if e2 <= dx { s.2 + step_dir(p.1, p.3) } else { s.2 };
    (err2, x, y)
}

/// The walk's invariant: it has gone `i` pixels along x and `j` along y
/// from the start, no further than the far end on either axis, and the
/// error term is what those steps leave.
pub open spec fn walk_inv(p: LineEnds, s: WalkState) -> bool {
    let a = abs(p.2 - p.0);
    let b = abs(p.3 - p.1);
    let i = (s.1 - p.0) * step_dir(p.0, p.2);
    let j = (s.2 - p.1) * step_dir(p.1, p.3);
    &&& a > 0
    &&& b > 0
    &&& 0 <= i <= a
    &&& 0 <= j <= b
    &&& s.0 == a * (1 + j) - b * (1 + i)
}

/// How far the walk still has to go: the steps left on both axes.
pub open spec fn walk_measure(p: LineEnds, s: WalkState) -> int {
    abs(p.2 - s.1) + abs(p.3 - s.2)
}

/// Whether the walk stands on the far end.
pub open spec fn walk_done(p: LineEnds, s: WalkState) -> bool {
    s.1 == p.2 && s.2 == p.3
}

/// The pixels that the walk draws from `s` on: the current one, and the
/// rest of the walk, which ends on the far end.
pub open spec fn walk_cells(p: LineEnds, s: WalkState) -> Set<(int, int)>
    decreases walk_measure(p, s),
    when walk_inv(p, s) && !walk_done(p, s)
    via walk_cells_decreases
{
    let n = walk_step(p, s);
    if walk_done(p, n) {
        set![(s.1, s.2), (n.1, n.2)]
    } else {
        set![(s.1, s.2)] + walk_cells(p, n)
    }
}

/// A step keeps the invariant and brings the walk closer to the far end.
pub proof fn lemma_walk_step(p: LineEnds, s: WalkState)
    requires
        walk_inv(p, s),
        !walk_done(p, s),
    ensures
        walk_inv(p, walk_step(p, s)),
        walk_measure(p, walk_step(p, s)) < walk_measure(p, s),
        0 <= walk_measure(p, walk_step(p, s)),
{
    let a = abs(p.2 - p.0);
    let b = abs(p.3 - p.1);
    let sx = step_dir(p.0, p.2);
    let sy = step_dir(p.1, p.3);
    let i = (s.1 - p.0) * sx;
    let j = (s.2 - p.1) * sy;
    let e2 = 2 * s.0;
    // x stands at the far end: x does not step again while y has not.
    if i == a {
        assert(j < b) by {
            assert(s.1 - p.0 == a * sx) by (nonlinear_arith)
                requires
                    i == (s.1 - p.0) * sx,
                    sx == 1 || sx == -1,
                    i == a,
            ;
            if j == b {
                assert(s.2 - p.1 == b * sy) by (nonlinear_arith)
                    requires
                        j == (s.2 - p.1) * sy,
                        sy == 1 || sy == -1,
                        j == b,
                ;
            }
        }
        assert(a * (1 + j) <= a * b) by (nonlinear_arith)
            requires
                j < b,
                a > 0,
        ;
        assert(b * (1 + i) == b + a * b) by (nonlinear_arith)
            requires
                i == a,
        ;
    }
    if j == b {
        assert(i < a) by {
            assert(s.2 - p.1 == b * sy) by (nonlinear_arith)
                requires
                    j == (s.2 - p.1) * sy,
                    sy == 1 || sy == -1,
                    j == b,
            ;
            if i == a {
                assert(s.1 - p.0 == a * sx) by (nonlinear_arith)
                    requires
                        i == (s.1 - p.0) * sx,
                        sx == 1 || sx == -1,
                        i == a,
                ;
            }
        }
        assert(b * (1 + i) <= a * b) by (nonlinear_arith)
            requires
                i < a,
                b > 0,
        ;
        assert(a * (1 + j) == a + a * b) by (nonlinear_arith)
            requires
                j == b,
        ;
    }
    let n = walk_step(p, s);
    let i2 = (n.1 - p.0) * sx;
    let j2 = (n.2 - p.1) * sy;
    assert(i2 == i + (if -b <= e2 { 1int } else { 0 })) by (nonlinear_arith)
        requires
            i2 == (n.1 - p.0) * sx,
            i == (s.1 - p.0) * sx,
            n.1 == if -b <= e2 { s.1 + sx } else { s.1 },
            sx == 1 || sx == -1,
    ;
    assert(j2 == j + (if e2 <= a { 1int } else { 0 })) by (nonlinear_arith)
        requires
            j2 == (n.2 - p.1) * sy,
            j == (s.2 - p.1) * sy,
            n.2 == if e2 <= a { s.2 + sy } else { s.2 },
            sy == 1 || sy == -1,
    ;
    assert(n.0 == a * (1 + j2) - b * (1 + i2)) by (nonlinear_arith)
        requires
            s.0 == a * (1 + j) - b * (1 + i),
            i2 == i + (if -b <= e2 { 1int } else { 0 }),
            j2 == j + (if e2 <= a { 1int } else { 0 }),
            n.0 == (if -b <= e2 { s.0 - b } else { s.0 }) + (if e2 <= a { a } else { 0 }),
    ;
    assert(abs(p.2 - n.1) == a - i2) by (nonlinear_arith)
        requires
            i2 == (n.1 - p.0) * sx,
            a == abs(p.2 - p.0),
            sx == step_dir(p.0, p.2),
            0 <= i2 <= a,
    ;
    assert(abs(p.2 - s.1) == a - i) by (nonlinear_arith)
        requires
            i == (s.1 - p.0) * sx,
            a == abs(p.2 - p.0),
            sx == step_dir(p.0, p.2),
            0 <= i <= a,
    ;
    assert(abs(p.3 - n.2) == b - j2) by (nonlinear_arith)
        requires
            j2 == (n.2 - p.1) * sy,
            b == abs(p.3 - p.1),
            sy == step_dir(p.1, p.3),
            0 <= j2 <= b,
    ;
    assert(abs(p.3 - s.2) == b - j) by (nonlinear_arith)
        requires
            j == (s.2 - p.1) * sy,
            b == abs(p.3 - p.1),
            sy == step_dir(p.1, p.3),
            0 <= j <= b,
    ;
}

#[via_fn]
proof fn walk_cells_decreases(p: LineEnds, s: WalkState) {
    if walk_inv(p, s) && !walk_done(p, s) {
        lemma_walk_step(p, s);
    }
}

/// The walk stays in the box that the line's two ends span.
pub proof fn lemma_walk_in_box(p: LineEnds, s: WalkState)
    requires
        walk_inv(p, s),
    ensures
        (p.0 <= s.1 <= p.2) || (p.2 <= s.1 <= p.0),
        (p.1 <= s.2 <= p.3) || (p.3 <= s.2 <= p.1),
{
    let a = abs(p.2 - p.0);
    let b = abs(p.3 - p.1);
    let sx = step_dir(p.0, p.2);
    let sy = step_dir(p.1, p.3);
    let i = (s.1 - p.0) * sx;
    let j = (s.2 - p.1) * sy;
    assert((p.0 <= s.1 <= p.2) || (p.2 <= s.1 <= p.0)) by (nonlinear_arith)
        requires
            i == (s.1 - p.0) * sx,
            a == abs(p.2 - p.0),
            sx == step_dir(p.0, p.2),
            0 <= i <= a,
    ;
    assert((p.1 <= s.2 <= p.3) || (p.3 <= s.2 <= p.1)) by (nonlinear_arith)
        requires
            j == (s.2 - p.1) * sy,
            b == abs(p.3 - p.1),
            sy == step_dir(p.1, p.3),
            0 <= j <= b,
    ;
}

/// The error term stays within twice the product of the box's sides.
pub proof fn lemma_walk_err_bound(p: LineEnds, s: WalkState)
    requires
        walk_inv(p, s),
    ensures
        abs(s.0) <= 2 * (abs(p.2 - p.0) + 1) * (abs(p.3 - p.1) + 1),
{
    let a = abs(p.2 - p.0);
    let b = abs(p.3 - p.1);
    let i = (s.1 - p.0) * step_dir(p.0, p.2);
    let j = (s.2 - p.1) * step_dir(p.1, p.3);
    assert(abs(s.0) <= 2 * (a + 1) * (b + 1)) by (nonlinear_arith)
        requires
            s.0 == a * (1 + j) - b * (1 + i),
            0 <= i <= a,
            0 <= j <= b,
            a > 0,
            b > 0,
    ;
}

/// The pixels the walk draws from `s` on lie in the box of the line's ends,
/// and the far end is among them.
pub proof fn law_walk_cells_in_box(p: LineEnds, s: WalkState)
    requires
        walk_inv(p, s),
        !walk_done(p, s),
    ensures
        walk_cells(p, s).contains((p.2, p.3)),
        forall|c: (int, int)| #[trigger] walk_cells(p, s).contains(c) ==> ((p.0 <= c.0 <= p.2) || (p.2 <= c.0 <= p.0))
            && ((p.1 <= c.1 <= p.3) || (p.3 <= c.1 <= p.1)),
    decreases walk_measure(p, s),
{
    let n = walk_step(p, s);
    lemma_walk_step(p, s);
    lemma_walk_in_box(p, s);
    lemma_walk_in_box(p, n);
    if !walk_done(p, n) {
        law_walk_cells_in_box(p, n);
    }
}

/// The ends in the order the drawing uses: swapped unless the first lies
/// above and left of the second.
pub open spec fn ordered_ends(p: LineEnds) -> LineEnds {
    if !(p.0 < p.2 && p.1 < p.3) {
        (p.2, p.3, p.0, p.1)
    } else {
        p
    }
}

/// The pixels of the line between two ends: a column or a row of pixels
/// where they share a coordinate, else the pixels of the walk from the
/// first end (in drawing order) to the second.
pub open spec fn line_pixels(p: LineEnds) -> Set<(int, int)> {
    let q = ordered_ends(p);
    if q.0 == q.2 {
        Set::new(|c: (int, int)| c.0 == q.0 && ((q.1 <= c.1 <= q.3) || (q.3 <= c.1 <= q.1)))
    } else if q.1 == q.3 {
        Set::new(|c: (int, int)| c.1 == q.1 && ((q.0 <= c.0 <= q.2) || (q.2 <= c.0 <= q.0)))
    } else {
        walk_cells(q, (abs(q.2 - q.0) - abs(q.3 - q.1), q.0, q.1))
    }
}

/// Every pixel of a line lies in the box that its ends span, and both ends
/// are pixels of it.
pub proof fn law_line_in_box(p: LineEnds)
    ensures
        line_pixels(p).contains((p.0, p.1)),
        line_pixels(p).contains((p.2, p.3)),
        forall|c: (int, int)| #[trigger] line_pixels(p).contains(c) ==> ((p.0 <= c.0 <= p.2) || (p.2 <= c.0 <= p.0))
            && ((p.1 <= c.1 <= p.3) || (p.3 <= c.1 <= p.1)),
{
    let q = ordered_ends(p);
    if q.0 != q.2 && q.1 != q.3 {
        let s0 = (abs(q.2 - q.0) - abs(q.3 - q.1), q.0, q.1);
        assert((q.0 - q.0) * step_dir(q.0, q.2) == 0);
        assert((q.1 - q.1) * step_dir(q.1, q.3) == 0);
        assert(abs(q.2 - q.0) * (1 + 0int) == abs(q.2 - q.0));
        assert(abs(q.3 - q.1) * (1 + 0int) == abs(q.3 - q.1));
        assert(walk_inv(q, s0));
        law_walk_cells_in_box(q, s0);
        lemma_walk_step(q, s0);
        assert(walk_cells(q, s0).contains((q.0, q.1)));
    }
}

/// Whether cell `k` of a buffer `width` pixels wide is a pixel of `cells`.
pub open spec fn cell_in(k: int, width: int, cells: Set<(int, int)>) -> bool {
    cells.contains((k % width, k / width))
}

impl VgaVideoMode {
    /// Draws the line from (`x0`, `y0`) to (`x1`, `y1`) in `color`;
    /// nothing where an end lies off the screen.
    pub fn _vga13h_draw_line(&mut self, x0: usize, y0: usize, x1: usize, y1: usize, color: u8)
        requires
            old(self).linear_wf(),
            old(self).video_width_px * old(self).video_height_px * 8 <= isize::MAX,
        ensures
            final(self).linear_wf(),
            final(self).video_width_px == old(self).video_width_px,
            final(self).video_height_px == old(self).video_height_px,
            final(self).mode_value == old(self).mode_value,
            final(self).video_buffer@.len() == old(self).video_buffer@.len(),
            forall|k: int|
                0 <= k < old(self).video_buffer@.len() ==> #[trigger] final(self).video_buffer@[k] == if x0
                    < old(self).video_width_px && y0 < old(self).video_height_px && x1
                    < old(self).video_width_px && y1 < old(self).video_height_px && cell_in(
                    k,
                    old(self).video_width_px as int,
                    line_pixels((x0 as int, y0 as int, x1 as int, y1 as int)),
                ) {
                    color
                } else {
                    old(self).video_buffer@[k]
                },
    {
        let ghost old_buf = self.video_buffer@;
        let ghost p = (x0 as int, y0 as int, x1 as int, y1 as int);
        let w = self.video_width_px;
        let h = self.video_height_px;
        let n = self.video_buffer.len();
        if x0 >= w || y0 >= h || x1 >= w || y1 >= h {
            return;
        }
        let (x0, y0, x1, y1) = if !(x0 < x1 && y0 < y1) {
            (x1, y1, x0, y0)
        } else {
            (x0, y0, x1, y1)
        };
        let ghost q = (x0 as int, y0 as int, x1 as int, y1 as int);
        assert(q == ordered_ends(p));
        let ghost cells = line_pixels(p);
        if x0 == x1 {
            let lo = if y0 < y1 { y0 } else { y1 };
            let hi = if y0 < y1 { y1 } else { y0 };
            let mut row: usize = lo;
            while row <= hi
                invariant
                    lo <= row <= hi + 1,
                    hi < h,
                    x0 < w,
                    self.linear_wf(),
                    self.video_width_px == w,
                    self.video_height_px == h,
                    self.mode_value == old(self).mode_value,
                    n == old_buf.len(),
                    self.video_buffer@.len() == n,
                    forall|k: int|
                        0 <= k < n ==> #[trigger] self.video_buffer@[k] == if k % (w as int) == x0 && lo <= k
                            / (w as int) < row {
                            color
                        } else {
                            old_buf[k]
                        },
                decreases hi + 1 - row,
            {
                proof {
                    lemma_pixel_in_screen(w as int, h as int, x0 as int, row as int);
                    lemma_pixel_index(w as int, x0 as int, row as int);
                    lemma_cell_unique(w as int, row as int, x0 as int);
                }
                let pixel = row * w + x0;
                self.video_buffer.set(pixel, color);
                row = row + 1;
            }
            assert forall|k: int| 0 <= k < n implies #[trigger] self.video_buffer@[k] == if cell_in(k, w as int, cells) {
                color
            } else {
                old_buf[k]
            } by {
                assert(cells.contains((k % (w as int), k / (w as int))) == (k % (w as int) == x0 && lo <= k / (
                w as int) <= hi));
            }
            return;
        }
        if y0 == y1 {
            let lo = if x0 < x1 { x0 } else { x1 };
            let hi = if x0 < x1 { x1 } else { x0 };
            proof {
                lemma_pixel_in_screen(w as int, h as int, 0, y0 as int);
            }
            let base = y0 * w;
            let mut col: usize = lo;
            while col <= hi
                invariant
                    lo <= col <= hi + 1,
                    hi < w,
                    y0 < h,
                    base == y0 * w,
                    self.linear_wf(),
                    self.video_width_px == w,
                    self.video_height_px == h,
                    self.mode_value == old(self).mode_value,
                    n == old_buf.len(),
                    self.video_buffer@.len() == n,
                    forall|k: int|
                        0 <= k < n ==> #[trigger] self.video_buffer@[k] == if k / (w as int) == y0 && lo <= k
                            % (w as int) < col {
                            color
                        } else {
                            old_buf[k]
                        },
                decreases hi + 1 - col,
            {
                proof {
                    lemma_pixel_in_screen(w as int, h as int, col as int, y0 as int);
                    lemma_pixel_index(w as int, col as int, y0 as int);
                    lemma_cell_unique(w as int, y0 as int, col as int);
                }
                self.video_buffer.set(base + col, color);
                col = col + 1;
            }
            assert forall|k: int| 0 <= k < n implies #[trigger] self.video_buffer@[k] == if cell_in(k, w as int, cells) {
                color
            } else {
                old_buf[k]
            } by {
                assert(cells.contains((k % (w as int), k / (w as int))) == (k / (w as int) == y0 && lo <= k % (
                w as int) <= hi));
            }
            return;
        }
        assert(w <= w * h && h <= w * h) by (nonlinear_arith)
            requires
                x0 < w,
                y0 < h,
        ;
        let x0_i: isize = x0 as isize;
        let y0_i: isize = y0 as isize;
        let x1_i: isize = x1 as isize;
        let y1_i: isize = y1 as isize;
        let width: isize = w as isize;
        let dx: isize = if x1_i >= x0_i { x1_i - x0_i } else { x0_i - x1_i };
        let dy: isize = -(if y1_i >= y0_i { y1_i - y0_i } else { y0_i - y1_i });
        let step_x: isize = if x0 < x1 { 1 } else { -1 };
        let step_y: isize = if y0 < y1 { 1 } else { -1 };
        let mut error: isize = dx + dy;
        let mut pos_x: isize = x0_i;
        let mut pos_y: isize = y0_i;
        let ghost start = (error as int, pos_x as int, pos_y as int);
        let ghost mut drawn: Set<(int, int)> = Set::empty();
        proof {
            assert((q.0 - q.0) * step_dir(q.0, q.2) == 0);
            assert((q.1 - q.1) * step_dir(q.1, q.3) == 0);
            assert(abs(q.2 - q.0) * (1 + 0int) == abs(q.2 - q.0));
            assert(abs(q.3 - q.1) * (1 + 0int) == abs(q.3 - q.1));
            assert(walk_inv(q, start));
            assert(cells == walk_cells(q, start));
        }
        loop
            invariant_except_break
                walk_inv(q, (error as int, pos_x as int, pos_y as int)),
                !walk_done(q, (error as int, pos_x as int, pos_y as int)),
                drawn + walk_cells(q, (error as int, pos_x as int, pos_y as int)) == cells,
            invariant
                q == (x0 as int, y0 as int, x1 as int, y1 as int),
                x0 < w,
                x1 < w,
                y0 < h,
                y1 < h,
                w * h * 8 <= isize::MAX,
                width == w,
                x0_i == x0,
                x1_i == x1,
                y0_i == y0,
                y1_i == y1,
                dx == abs(q.2 - q.0),
                dy == -abs(q.3 - q.1),
                step_x == step_dir(q.0, q.2),
                step_y == step_dir(q.1, q.3),
                self.linear_wf(),
                self.video_width_px == w,
                self.video_height_px == h,
                self.mode_value == old(self).mode_value,
                n == old_buf.len(),
                self.video_buffer@.len() == n,
                forall|k: int|
                    0 <= k < n ==> #[trigger] self.video_buffer@[k] == if cell_in(k, w as int, drawn) {
                        color
                    } else {
                        old_buf[k]
                    },
                forall|c: (int, int)| #[trigger] drawn.contains(c) ==> 0 <= c.0 < w && 0 <= c.1,
            ensures
                drawn == cells,
                forall|k: int|
                    0 <= k < n ==> #[trigger] self.video_buffer@[k] == if cell_in(k, w as int, drawn) {
                        color
                    } else {
                        old_buf[k]
                    },
            decreases walk_measure(q, (error as int, pos_x as int, pos_y as int)),
        {
            let ghost cur = (error as int, pos_x as int, pos_y as int);
            proof {
                lemma_walk_in_box(q, cur);
                lemma_walk_err_bound(q, cur);
                lemma_walk_step(q, cur);
                lemma_pixel_in_screen(w as int, h as int, pos_x as int, pos_y as int);
                lemma_pixel_index(w as int, pos_x as int, pos_y as int);
                lemma_cell_unique(w as int, pos_y as int, pos_x as int);
                let ghost a = dx as int;
                let ghost b = 0 - dy as int;
                assert(2 * (a + 1) * (b + 1) <= 2 * ((w as int) * (h as int))) by (nonlinear_arith)
                    requires
                        0 <= a < w,
                        0 <= b < h,
                ;
                assert((w as int) * (h as int) == w * h);
                assert(w <= w * h && h <= w * h) by (nonlinear_arith)
                    requires
                        x0 < w,
                        y0 < h,
                ;
                assert(pos_y * w + pos_x == pos_y * width + pos_x);
            }
            let index = pos_y * width + pos_x;
            self.video_buffer.set(index as usize, color);
            proof {
                drawn = drawn.insert((pos_x as int, pos_y as int));
                assert forall|k: int| 0 <= k < n implies #[trigger] self.video_buffer@[k] == if cell_in(k, w as int, drawn) {
                    color
                } else {
                    old_buf[k]
                } by {
                    if k != index as int {
                        assert(!(k / (w as int) == pos_y && k % (w as int) == pos_x));
                    }
                }
            }
            let error_2 = error * 2;
            if dy <= error_2 {
                error = error + dy;
                pos_x = pos_x + step_x;
            }
            if error_2 <= dx {
                error = error + dx;
                pos_y = pos_y + step_y;
            }
            proof {
                assert((error as int, pos_x as int, pos_y as int) == walk_step(q, cur));
                assert(walk_cells(q, cur) == if walk_done(q, walk_step(q, cur)) {
                    set![(cur.1, cur.2), (q.2, q.3)]
                } else {
                    set![(cur.1, cur.2)] + walk_cells(q, walk_step(q, cur))
                });
            }
            if pos_x == x1_i && pos_y == y1_i {
                proof {
                    lemma_pixel_in_screen(w as int, h as int, x1 as int, y1 as int);
                    lemma_pixel_index(w as int, x1 as int, y1 as int);
                    lemma_cell_unique(w as int, y1 as int, x1 as int);
                }
                assert(pos_y * width + pos_x == y1 * w + x1);
                let last = pos_y * width + pos_x;
                self.video_buffer.set(last as usize, color);
                proof {
                    drawn = drawn.insert((pos_x as int, pos_y as int));
                    assert(drawn =~= cells);
                    assert forall|k: int| 0 <= k < n implies #[trigger] self.video_buffer@[k] == if cell_in(k, w as int, drawn) {
                        color
                    } else {
                        old_buf[k]
                    } by {
                        if k != last as int {
                            assert(!(k / (w as int) == pos_y && k % (w as int) == pos_x));
                        }
                    }
                }
                break;
            }
            proof {
                assert(drawn + walk_cells(q, (error as int, pos_x as int, pos_y as int)) =~= cells);
            }
        }
    }
}

impl VgaVideoMode {
    /// Draws the outline of the triangle with corners (`x0`, `y0`),
    /// (`x1`, `y1`) and (`x2`, `y2`): its three sides as lines, each left
    /// out where one of its ends is off the screen.
    pub fn _vga13h_draw_triangle(
        &mut self,
        x0: usize,
        y0: usize,
        x1: usize,
        y1: usize,
        x2: usize,
        y2: usize,
        color: u8,
    )
        requires
            old(self).linear_wf(),
            old(self).video_width_px * old(self).video_height_px * 8 <= isize::MAX,
        ensures
            final(self).linear_wf(),
            final(self).video_width_px == old(self).video_width_px,
            final(self).video_height_px == old(self).video_height_px,
            final(self).mode_value == old(self).mode_value,
            final(self).video_buffer@.len() == old(self).video_buffer@.len(),
            forall|k: int|
                0 <= k < old(self).video_buffer@.len() ==> #[trigger] final(self).video_buffer@[k] == if drawn_side(
                    k,
                    old(self).video_width_px as int,
                    old(self).video_height_px as int,
                    (x0 as int, y0 as int, x1 as int, y1 as int),
                ) || drawn_side(
                    k,
                    old(self).video_width_px as int,
                    old(self).video_height_px as int,
                    (x0 as int, y0 as int, x2 as int, y2 as int),
                ) || drawn_side(
                    k,
                    old(self).video_width_px as int,
                    old(self).video_height_px as int,
                    (x1 as int, y1 as int, x2 as int, y2 as int),
                ) {
                    color
                } else {
                    old(self).video_buffer@[k]
                },
    {
        self._vga13h_draw_line(x0, y0, x1, y1, color);
        self._vga13h_draw_line(x0, y0, x2, y2, color);
        self._vga13h_draw_line(x1, y1, x2, y2, color);
    }
}

/// Whether `_vga13h_draw_line` colours cell `k` of a `width` by `height`
/// screen for the line `p`: both ends on the screen and the cell a pixel of
/// the line.
pub open spec fn drawn_side(k: int, width: int, height: int, p: LineEnds) -> bool {
    &&& 0 <= p.0 < width && 0 <= p.1 < height && 0 <= p.2 < width && 0 <= p.3 < height
    &&& cell_in(k, width, line_pixels(p))
}

} // verus!
