//! The VGA graphics modes: 13h, one byte per pixel in a linear buffer, and
//! 12h, four bit planes. The buffer here is the model that is copied to
//! video memory.
use vstd::prelude::*;
use crate::vga::registers::{
    load_4bit_color_palette_into_dac, load_8bit_color_pallet_into_dac, mode_12h_writes,
    mode_13h_writes, palette_4bit_writes, palette_8bit_writes, set_12h_mode_regs,
    set_13h_mode_regs, PortIo,
};

verus! {

/// Bytes of video memory a mode uses from 0xA0000.
pub const VGA_GRAPHICS_BUFFER_SIZE: usize = 64000;

/// A graphics mode: its resolution and colour depth, how many bytes one row
/// of pixels (`pitch`) and one pixel take, its mode number, and its video
/// memory.
pub struct VgaVideoMode {
    pub video_width_px: usize,
    pub video_height_px: usize,
    pub color_depth_bits: usize,
    pub pitch: usize,
    pub pixel_width: usize,
    pub mode_value: u8,
    pub video_buffer: Vec<u8>,
}

/// Whether the cell at `i` of a linear buffer `width` pixels wide lies in
/// the rectangle of `w` by `h` pixels whose top left corner is (`x`, `y`).
pub open spec fn in_rect(i: int, width: int, x: int, y: int, w: int, h: int) -> bool {
    &&& x <= i % width < x + w
    &&& y <= i / width < y + h
}

/// The index of pixel (`col`, `row`) in a buffer `width` pixels wide
/// splits back into that column and row.
pub proof fn lemma_pixel_index(width: int, col: int, row: int)
    requires
        0 <= col < width,
        0 <= row,
    ensures
        (row * width + col) % width == col,
        (row * width + col) / width == row,
{
    vstd::arithmetic::div_mod::lemma_fundamental_div_mod_converse(row * width + col, width, row, col);
}

/// Only the index of (`col`, `row`) splits into that column and row.
pub proof fn lemma_cell_unique(width: int, row: int, col: int)
    requires
        width > 0,
    ensures
        forall|k: int| 0 <= k && #[trigger] (k / width) == row && k % width == col ==> k == row * width + col,
{
    assert forall|k: int| 0 <= k && #[trigger] (k / width) == row && k % width == col implies k == row * width + col by {
        vstd::arithmetic::div_mod::lemma_fundamental_div_mod(k, width);
        assert(width * (k / width) == row * width) by (nonlinear_arith)
            requires
                k / width == row,
        ;
    }
}

/// A pixel inside a `width` by `height` screen has an index below
/// `width * height`.
pub proof fn lemma_pixel_in_screen(width: int, height: int, col: int, row: int)
    requires
        0 <= col < width,
        0 <= row < height,
    ensures
        0 <= row * width + col < width * height,
{
    assert(row * width + col < width * height) by (nonlinear_arith)
        requires
            0 <= col < width,
            0 <= row < height,
    ;
    assert(0 <= row * width) by (nonlinear_arith)
        requires
            0 <= col < width,
            0 <= row,
    ;
}

fn zeroed_buffer() -> (r: Vec<u8>)
    ensures
        r@ == Seq::new(VGA_GRAPHICS_BUFFER_SIZE as nat, |i: int| 0u8),
{
    let mut r: Vec<u8> = Vec::new();
    let mut i: usize = 0;
    while i < VGA_GRAPHICS_BUFFER_SIZE
        invariant
            i <= VGA_GRAPHICS_BUFFER_SIZE,
            r@ == Seq::new(i as nat, |k: int| 0u8),
        decreases VGA_GRAPHICS_BUFFER_SIZE - i,
    {
        r.push(0);
        i = i + 1;
        assert(r@ =~= Seq::new(i as nat, |k: int| 0u8));
    }
    r
}

impl VgaVideoMode {
    /// The linear mode's invariant: one byte per pixel, rows `width` bytes
    /// apart, and the whole screen inside the buffer.
    pub open spec fn linear_wf(&self) -> bool {
        &&& self.pitch == self.video_width_px
        &&& self.video_width_px > 0
        &&& self.video_width_px * self.video_height_px <= self.video_buffer@.len()
    }

    /// Mode 13h: 320 by 200 pixels, one byte each.
    pub fn new_vga_0x13_320x200_256color_mode() -> (r: VgaVideoMode)
        ensures
            r.video_width_px == 320,
            r.video_height_px == 200,
            r.color_depth_bits == 8,
            r.pitch == 320,
            r.pixel_width == 1,
            r.mode_value == 0x13,
            r.video_buffer@ == Seq::new(VGA_GRAPHICS_BUFFER_SIZE as nat, |i: int| 0u8),
            r.linear_wf(),
    {
        VgaVideoMode {
            video_width_px: 320,
            video_height_px: 200,
            color_depth_bits: 8,
            pitch: 320,
            pixel_width: 1,
            mode_value: 0x13,
            video_buffer: zeroed_buffer(),
        }
    }

    /// Mode 12h: 640 by 480 pixels in four planes, 80 bytes a row.
    pub fn new_vga_0x12_640x480_16color_mode() -> (r: VgaVideoMode)
        ensures
            r.video_width_px == 640,
            r.video_height_px == 480,
            r.color_depth_bits == 4,
            r.pitch == 80,
            r.pixel_width == 0,
            r.mode_value == 0x12,
            r.video_buffer@ == Seq::new(VGA_GRAPHICS_BUFFER_SIZE as nat, |i: int| 0u8),
    {
        VgaVideoMode {
            video_width_px: 640,
            video_height_px: 480,
            color_depth_bits: 4,
            pitch: 80,
            pixel_width: 0,
            mode_value: 0x12,
            video_buffer: zeroed_buffer(),
        }
    }

    /// Sets pixel (`pos_x`, `pos_y`) to `color` in the linear mode.
    pub fn vga13h_put_pixel(&mut self, pos_x: usize, pos_y: usize, color: u8)
        requires
            old(self).video_width_px * pos_y + pos_x < old(self).video_buffer@.len(),
        ensures
            final(self).video_buffer@ == old(self).video_buffer@.update(
                old(self).video_width_px * pos_y + pos_x,
                color,
            ),
            final(self).video_width_px == old(self).video_width_px,
            final(self).video_height_px == old(self).video_height_px,
            final(self).pitch == old(self).pitch,
            final(self).color_depth_bits == old(self).color_depth_bits,
            final(self).pixel_width == old(self).pixel_width,
            final(self).mode_value == old(self).mode_value,
    {
        let n = self.video_buffer.len();
        assert(self.video_width_px * pos_y <= n);
        let location = self.video_width_px * pos_y + pos_x;
        self.video_buffer.set(location, color);
    }

    /// Where pixel (`pos_x`, `pos_y`) lies in the planar mode: the byte at
    /// row `pos_y` (80 bytes a row) holding its column, and the bit of it,
    /// counted from the left.
    pub fn vga12h_pixel_location(pos_x: usize, pos_y: usize) -> (r: (usize, u8))
        requires
            pos_y * 80 + pos_x / 8 <= usize::MAX,
        ensures
            r.0 == pos_y * 80 + pos_x / 8,
            r.1 == 0x80u8 >> ((pos_x % 8) as u8),
    {
        assert((pos_x >> 3usize) == pos_x / 8) by (bit_vector);
        assert(pos_y * 80 <= usize::MAX);
        let offset = pos_y * 80 + (pos_x >> 3);
        assert((pos_x & 7) == pos_x % 8) by (bit_vector);
        let mask: u8 = 0x80u8 >> ((pos_x & 7) as u8);
        (offset, mask)
    }

    /// Clears the linear mode's buffer to colour 0.
    pub fn _vga13h_clear_buffer(&mut self)
        ensures
            final(self).video_buffer@ == Seq::new(old(self).video_buffer@.len(), |i: int| 0u8),
            final(self).video_width_px == old(self).video_width_px,
            final(self).video_height_px == old(self).video_height_px,
            final(self).pitch == old(self).pitch,
            final(self).mode_value == old(self).mode_value,
    {
        let n = self.video_buffer.len();
        let mut i: usize = 0;
        while i < n
            invariant
                i <= n,
                n == self.video_buffer@.len(),
                self.video_width_px == old(self).video_width_px,
                self.video_height_px == old(self).video_height_px,
                self.pitch == old(self).pitch,
                self.mode_value == old(self).mode_value,
                forall|k: int| 0 <= k < i ==> self.video_buffer@[k] == 0,
            decreases n - i,
        {
            self.video_buffer.set(i, 0);
            i = i + 1;
        }
        assert(self.video_buffer@ =~= Seq::new(n as nat, |i: int| 0u8));
    }

    /// Fills the rectangle of `width` by `height` pixels at (`x`, `y`) with
    /// `color`; the rectangle must end left of the last column and above
    /// the last row.
    pub fn _vga13h_fill_rect(&mut self, x: usize, y: usize, width: usize, height: usize, color: u8)
        requires
            old(self).linear_wf(),
            x + width < old(self).video_width_px,
            y + height < old(self).video_height_px,
        ensures
            final(self).linear_wf(),
            final(self).video_width_px == old(self).video_width_px,
            final(self).video_height_px == old(self).video_height_px,
            final(self).mode_value == old(self).mode_value,
            final(self).video_buffer@.len() == old(self).video_buffer@.len(),
            forall|i: int|
                0 <= i < old(self).video_buffer@.len() ==> #[trigger] final(self).video_buffer@[i] == if in_rect(
                    i,
                    old(self).video_width_px as int,
                    x as int,
                    y as int,
                    width as int,
                    height as int,
                ) {
                    color
                } else {
                    old(self).video_buffer@[i]
                },
    {
        let ghost old_buf = self.video_buffer@;
        let w = self.video_width_px;
        let ghost h = self.video_height_px;
        let n = self.video_buffer.len();
        let mut j: usize = y;
        while j < y + height
            invariant
                y <= j <= y + height,
                self.linear_wf(),
                self.video_width_px == w,
                self.mode_value == old(self).mode_value,
                self.video_height_px == h,
                x + width < w,
                y + height < h,
                self.video_buffer@.len() == old_buf.len(),
                n == old_buf.len(),
                forall|i: int|
                    0 <= i < old_buf.len() ==> #[trigger] self.video_buffer@[i] == if in_rect(
                        i,
                        w as int,
                        x as int,
                        y as int,
                        width as int,
                        j - y,
                    ) {
                        color
                    } else {
                        old_buf[i]
                    },
            decreases y + height - j,
        {
            let mut i: usize = x;
            while i < x + width
                invariant
                    x <= i <= x + width,
                    y <= j < y + height,
                    self.linear_wf(),
                    self.video_width_px == w,
                    self.mode_value == old(self).mode_value,
                self.mode_value == old(self).mode_value,
                    self.video_height_px == h,
                    x + width < w,
                    y + height < h,
                    self.video_buffer@.len() == old_buf.len(),
                n == old_buf.len(),
                    forall|k: int|
                        0 <= k < old_buf.len() ==> #[trigger] self.video_buffer@[k] == if in_rect(
                            k,
                            w as int,
                            x as int,
                            y as int,
                            width as int,
                            j - y,
                        ) || (k / (w as int) == j && x <= k % (w as int) < i) {
                            color
                        } else {
                            old_buf[k]
                        },
                decreases x + width - i,
            {
                proof {
                    lemma_pixel_in_screen(w as int, h as int, i as int, j as int);
                    lemma_pixel_index(w as int, i as int, j as int);
                    lemma_cell_unique(w as int, j as int, i as int);
                }
                let idx = j * w + i;
                self.video_buffer.set(idx, color);
                i = i + 1;
            }
            j = j + 1;
        }
    }

    /// Draws the outline of the rectangle of `width` by `height` pixels at
    /// (`x`, `y`): its top and bottom rows, `width` pixels from `x`, and its
    /// left and right columns, at `x` and `x + width`, on every row from
    /// `y` to `y + height`.
    pub fn _vga13h_draw_rect(&mut self, x: usize, y: usize, width: usize, height: usize, color: u8)
        requires
            old(self).linear_wf(),
            x + width < old(self).video_width_px,
            y + height < old(self).video_height_px,
        ensures
            final(self).linear_wf(),
            final(self).video_width_px == old(self).video_width_px,
            final(self).video_height_px == old(self).video_height_px,
            final(self).mode_value == old(self).mode_value,
            final(self).video_buffer@.len() == old(self).video_buffer@.len(),
            forall|i: int|
                0 <= i < old(self).video_buffer@.len() ==> #[trigger] final(self).video_buffer@[i] == if on_rect_outline(
                    i,
                    old(self).video_width_px as int,
                    x as int,
                    y as int,
                    width as int,
                    height as int,
                ) {
                    color
                } else {
                    old(self).video_buffer@[i]
                },
    {
        let ghost old_buf = self.video_buffer@;
        let w = self.video_width_px;
        let ghost h = self.video_height_px;
        let n = self.video_buffer.len();
        proof {
            lemma_pixel_in_screen(w as int, h as int, x as int, y as int);
            lemma_pixel_in_screen(w as int, h as int, x as int, (y + height) as int);
        }
        let start_top = y * w + x;
        let start_bottom = (y + height) * w + x;
        let mut i: usize = 0;
        while i < width
            invariant
                i <= width,
                self.linear_wf(),
                self.video_width_px == w,
                self.mode_value == old(self).mode_value,
                self.video_height_px == h,
                x + width < w,
                y + height < h,
                start_top == y * w + x,
                start_bottom == (y + height) * w + x,
                self.video_buffer@.len() == old_buf.len(),
                n == old_buf.len(),
                forall|k: int|
                    0 <= k < old_buf.len() ==> #[trigger] self.video_buffer@[k] == if (k / (w as int) == y
                        || k / (w as int) == y + height) && x <= k % (w as int) < x + i {
                        color
                    } else {
                        old_buf[k]
                    },
            decreases width - i,
        {
            proof {
                lemma_pixel_in_screen(w as int, h as int, (x + i) as int, y as int);
                lemma_pixel_in_screen(w as int, h as int, (x + i) as int, (y + height) as int);
                lemma_pixel_index(w as int, (x + i) as int, y as int);
                lemma_cell_unique(w as int, y as int, (x + i) as int);
                lemma_pixel_index(w as int, (x + i) as int, (y + height) as int);
                lemma_cell_unique(w as int, (y + height) as int, (x + i) as int);
            }
            self.video_buffer.set(start_top + i, color);
            self.video_buffer.set(start_bottom + i, color);
            i = i + 1;
        }
        let mut j: usize = y;
        while j <= y + height
            invariant
                y <= j <= y + height + 1,
                self.linear_wf(),
                self.video_width_px == w,
                self.mode_value == old(self).mode_value,
                self.video_height_px == h,
                x + width < w,
                y + height < h,
                self.video_buffer@.len() == old_buf.len(),
                n == old_buf.len(),
                forall|k: int|
                    0 <= k < old_buf.len() ==> #[trigger] self.video_buffer@[k] == if ((k / (w as int) == y
                        || k / (w as int) == y + height) && x <= k % (w as int) < x + width) || (y <= k / (
                    w as int) < j && (k % (w as int) == x || k % (w as int) == x + width)) {
                        color
                    } else {
                        old_buf[k]
                    },
            decreases y + height + 1 - j,
        {
            proof {
                lemma_pixel_in_screen(w as int, h as int, x as int, j as int);
                lemma_pixel_in_screen(w as int, h as int, (x + width) as int, j as int);
                lemma_pixel_index(w as int, x as int, j as int);
                lemma_cell_unique(w as int, j as int, x as int);
                lemma_pixel_index(w as int, (x + width) as int, j as int);
                lemma_cell_unique(w as int, j as int, (x + width) as int);
            }
            let pixel_index = j * w + x;
            self.video_buffer.set(pixel_index, color);
            self.video_buffer.set(pixel_index + width, color);
            j = j + 1;
        }
    }

    /// Copies the `width` by `height` bitmap `mem`, row by row, to
    /// (`x`, `y`).
    pub fn _vga13h_draw_bitmap(&mut self, x: usize, y: usize, width: usize, height: usize, mem: &Vec<u8>)
        requires
            old(self).linear_wf(),
            x + width <= old(self).video_width_px,
            y + height <= old(self).video_height_px,
            width * height <= mem@.len(),
        ensures
            final(self).linear_wf(),
            final(self).video_width_px == old(self).video_width_px,
            final(self).video_height_px == old(self).video_height_px,
            final(self).mode_value == old(self).mode_value,
            final(self).video_buffer@.len() == old(self).video_buffer@.len(),
            forall|i: int|
                0 <= i < old(self).video_buffer@.len() ==> #[trigger] final(self).video_buffer@[i] == if in_rect(
                    i,
                    old(self).video_width_px as int,
                    x as int,
                    y as int,
                    width as int,
                    height as int,
                ) {
                    mem@[(i / (old(self).video_width_px as int) - y) * width + (i % (
                    old(self).video_width_px as int) - x)]
                } else {
                    old(self).video_buffer@[i]
                },
    {
        let ghost old_buf = self.video_buffer@;
        let w = self.video_width_px;
        let ghost h = self.video_height_px;
        let n = self.video_buffer.len();
        let mlen = mem.len();
        let mut j: usize = 0;
        let mut l: usize = 0;
        while l < height
            invariant
                l <= height,
                j == l * width,
                self.linear_wf(),
                self.video_width_px == w,
                self.mode_value == old(self).mode_value,
                self.video_height_px == h,
                x + width <= w,
                y + height <= h,
                width * height <= mem@.len(),
                mlen == mem@.len(),
                self.video_buffer@.len() == old_buf.len(),
                n == old_buf.len(),
                forall|k: int|
                    0 <= k < old_buf.len() ==> #[trigger] self.video_buffer@[k] == if in_rect(
                        k,
                        w as int,
                        x as int,
                        y as int,
                        width as int,
                        l as int,
                    ) {
                        mem@[(k / (w as int) - y) * width + (k % (w as int) - x)]
                    } else {
                        old_buf[k]
                    },
            decreases height - l,
        {
            let mut i: usize = 0;
            while i < width
                invariant
                    i <= width,
                    l < height,
                    j == l * width + i,
                    self.linear_wf(),
                    self.video_width_px == w,
                    self.mode_value == old(self).mode_value,
                self.mode_value == old(self).mode_value,
                    self.video_height_px == h,
                    x + width <= w,
                    y + height <= h,
                    width * height <= mem@.len(),
                    mlen == mem@.len(),
                    self.video_buffer@.len() == old_buf.len(),
                n == old_buf.len(),
                    forall|k: int|
                        0 <= k < old_buf.len() ==> #[trigger] self.video_buffer@[k] == if in_rect(
                            k,
                            w as int,
                            x as int,
                            y as int,
                            width as int,
                            l as int,
                        ) || (k / (w as int) == y + l && x <= k % (w as int) < x + i) {
                            mem@[(k / (w as int) - y) * width + (k % (w as int) - x)]
                        } else {
                            old_buf[k]
                        },
                decreases width - i,
            {
                proof {
                    lemma_pixel_in_screen(w as int, h as int, (x + i) as int, (y + l) as int);
                    lemma_pixel_index(w as int, (x + i) as int, (y + l) as int);
                    lemma_cell_unique(w as int, (y + l) as int, (x + i) as int);
                    assert(l * width + i < width * height) by (nonlinear_arith)
                        requires
                            l < height,
                            i < width,
                    ;
                    assert(w * (y + l) == (y + l) * w) by (nonlinear_arith);
                }
                let v = mem[j];
                self.vga13h_put_pixel(x + i, y + l, v);
                j = j + 1;
                i = i + 1;
            }
            proof {
                assert((l + 1) * width == l * width + width) by (nonlinear_arith);
            }
            l = l + 1;
        }
    }
}

/// Whether the cell at `i` of a buffer `width` pixels wide lies on the
/// outline that `_vga13h_draw_rect` draws.
pub open spec fn on_rect_outline(i: int, width: int, x: int, y: int, w: int, h: int) -> bool {
    ||| (i / width == y || i / width == y + h) && x <= i % width < x + w
    ||| y <= i / width <= y + h && (i % width == x || i % width == x + w)
}

impl VgaVideoMode {
    /// What switching the card to this mode takes, given the mode it is in
    /// (`None` where unknown). Where it is in this mode already, or the mode
    /// is neither 13h nor 12h, nothing: `None`. Else the port accesses that
    /// load the mode's registers and then its palette; in mode 13h the
    /// buffer is also cleared here, while mode 12h's planes are cleared by
    /// the caller. The caller then records this mode as the card's.
    pub fn vga_init_mode(&mut self, current_mode: Option<u8>) -> (r: Option<Vec<PortIo>>)
        ensures
            final(self).video_width_px == old(self).video_width_px,
            final(self).video_height_px == old(self).video_height_px,
            final(self).pitch == old(self).pitch,
            final(self).mode_value == old(self).mode_value,
            old(self).mode_value == 0x13 && current_mode != Some(0x13u8) ==> {
                &&& r matches Some(w) && w@ == mode_13h_writes() + palette_8bit_writes()
                &&& final(self).video_buffer@ == Seq::new(old(self).video_buffer@.len(), |i: int| 0u8)
            },
            old(self).mode_value == 0x12 && current_mode != Some(0x12u8) ==> {
                &&& r matches Some(w) && w@ == mode_12h_writes() + palette_4bit_writes()
                &&& final(self).video_buffer@ == old(self).video_buffer@
            },
            !(old(self).mode_value == 0x13 && current_mode != Some(0x13u8)) && !(old(self).mode_value
                == 0x12 && current_mode != Some(0x12u8)) ==> {
                &&& r is None
                &&& final(self).video_buffer@ == old(self).video_buffer@
            },
    {
        if self.mode_value == 0x13 {
            if current_mode == Some(0x13u8) {
                return None;
            }
            let mut writes = set_13h_mode_regs();
            let mut palette = load_8bit_color_pallet_into_dac();
            writes.append(&mut palette);
            self._vga13h_clear_buffer();
            Some(writes)
        } else if self.mode_value == 0x12 {
            if current_mode == Some(0x12u8) {
                return None;
            }
            let mut writes = set_12h_mode_regs();
            let mut palette = load_4bit_color_palette_into_dac();
            writes.append(&mut palette);
            Some(writes)
        } else {
            None
        }
    }
}

} // verus!
