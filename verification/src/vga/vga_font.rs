//! Bitmap fonts in the linear 256-colour mode: each glyph is `height`
//! bytes, one per row, whose low `width` bits give the row's pixels with the
//! lowest bit leftmost.
use vstd::prelude::*;
use vstd::std_specs::iter::IteratorSpec;
use crate::vga::registers::reverse_bits;
use crate::vga::vga_graphics::{in_rect, lemma_cell_unique, lemma_pixel_in_screen, lemma_pixel_index, VgaVideoMode};

verus! {

/// A bitmap font: glyph size, the first and last character it holds, the
/// bytes between consecutive glyphs, and the glyph bytes.
pub struct VgaFont<'a> {
    pub width: usize,
    pub height: usize,
    pub lochar: usize,
    pub hichar: usize,
    pub bytes_per_char: usize,
    pub mem: &'a [u8],
}

/// The character a font draws for `c`: `c` itself where the font holds it,
/// else `?`.
pub open spec fn glyph_code(c: char, lochar: int, hichar: int) -> int {
    if (c as int) < lochar || (c as int) > hichar {
        63
    } else {
        c as int
    }
}

/// Whether pixel (`col`, `row`) of the glyph whose bytes start at `base` is
/// set: bit `width - 1 - col` counted down from bit 7 of the row's byte.
pub open spec fn glyph_bit_set(mem: Seq<u8>, base: int, width: int, row: int, col: int) -> bool {
    mem[base + row] & (0x80u8 >> ((width - 1 - col) as u8)) != 0
}

/// Where the glyph for `c` starts in the font's bytes.
pub open spec fn glyph_base(font: VgaFont, c: char) -> int {
    (glyph_code(c, font.lochar as int, font.hichar as int) - font.lochar) * font.bytes_per_char
}

/// A font can draw `c`: at most 8 pixels wide, `?` is among its characters
/// where `c` is not, and the glyph's rows lie in its bytes.
pub open spec fn font_can_draw(font: VgaFont, c: char) -> bool {
    &&& font.width <= 8
    &&& glyph_code(c, font.lochar as int, font.hichar as int) >= font.lochar
    &&& glyph_base(font, c) + font.height <= font.mem@.len()
}

/// Whether character `i` of `text`, drawn from (`x`, `y`) on in a buffer
/// `width` pixels wide, sets index `k`.
pub open spec fn string_char_covers(font: VgaFont, text: Seq<char>, width: int, x: int, y: int, i: int, k: int) -> bool {
    let cx = x + i * font.width;
    &&& in_rect(k, width, cx, y, font.width as int, font.height as int)
    &&& glyph_bit_set(font.mem@, glyph_base(font, text[i]), font.width as int, k / width - y, k % width - cx)
}

/// Whether `r` is `b` with its bits in reverse order.
pub open spec fn bits_reversed(r: u8, b: u8) -> bool {
    forall|i: u8| i < 8 ==> #[trigger] ((r >> i) & 1) == (b >> (7 - i) as u8) & 1
}

/// The write that loads row `row` of glyph `i` of a font `h` rows high.
pub open spec fn glyph_write(writes: Seq<(usize, u8)>, h: int, i: int, row: int) -> (usize, u8) {
    writes[i * h + row]
}

/// Whether `writes` loads rows `0..rows` of glyph `i`: each at offset
/// `1024 + 32 * i + row`, bits reversed.
pub open spec fn glyph_rows_written(writes: Seq<(usize, u8)>, mem: Seq<u8>, h: int, i: int, rows: int) -> bool {
    forall|row: int| 0 <= row < rows ==> {
        &&& (#[trigger] glyph_write(writes, h, i, row)).0 == 1024 + 32 * i + row
        &&& bits_reversed(glyph_write(writes, h, i, row).1, mem[i * h + row])
    }
}

/// The bytes that load the 95 glyphs from the space on into font plane 2,
/// as (offset, byte) pairs in the order they are written: row `row` of
/// glyph `i` (bytes `i * height + row` of the font) with its bits reversed,
/// at offset `1024 + 32 * i + row`.
pub fn font_plane_writes(font: &VgaFont) -> (r: Vec<(usize, u8)>)
    requires
        95 * font.height <= font.mem@.len(),
        1024 + 32 * 95 + font.height <= usize::MAX,
    ensures
        r@.len() == 95 * font.height,
        forall|i: int| 0 <= i < 95 ==> #[trigger] glyph_rows_written(r@, font.mem@, font.height as int, i, font.height as int),
{
    let h = font.height;
    let mlen = font.mem.len();
    let mut r: Vec<(usize, u8)> = Vec::new();
    let mut i: usize = 0;
    while i < 95
        invariant
            mlen == font.mem@.len(),
            i <= 95,
            h == font.height,
            95 * h <= font.mem@.len(),
            1024 + 32 * 95 + h <= usize::MAX,
            r@.len() == i * h,
            forall|i2: int| 0 <= i2 < i ==> #[trigger] glyph_rows_written(r@, font.mem@, h as int, i2, h as int),
        decreases 95 - i,
    {
        let ghost start = r@;
        let mut row: usize = 0;
        while row < h
            invariant
                i < 95,
                row <= h,
                h == font.height,
                95 * h <= font.mem@.len(),
                1024 + 32 * 95 + h <= usize::MAX,
                r@.len() == i * h + row,
                start.len() == i * h,
                r@.subrange(0, i * h) == start,
                mlen == font.mem@.len(),
                forall|i2: int| 0 <= i2 < i ==> #[trigger] glyph_rows_written(start, font.mem@, h as int, i2, h as int),
                glyph_rows_written(r@, font.mem@, h as int, i as int, row as int),
            decreases h - row,
        {
            assert(i * h + row < 95 * h) by (nonlinear_arith)
                requires
                    i < 95,
                    row < h,
            ;
            let byte = font.mem[i * h + row];
            let flipped = reverse_bits(byte);
            let ghost before = r@;
            r.push((1024 + i * 32 + row, flipped));
            assert(r@.subrange(0, i * h) =~= before.subrange(0, i * h));
            assert forall|row2: int| 0 <= row2 < row + 1 implies {
                &&& (#[trigger] glyph_write(r@, h as int, i as int, row2)).0 == 1024 + 32 * i + row2
                &&& bits_reversed(glyph_write(r@, h as int, i as int, row2).1, font.mem@[i * h + row2])
            } by {
                if row2 < row {
                    assert(glyph_write(before, h as int, i as int, row2) == glyph_write(r@, h as int, i as int, row2));
                }
            }
            row = row + 1;
        }
        assert(glyph_rows_written(r@, font.mem@, h as int, i as int, h as int));
        assert forall|i2: int| 0 <= i2 < i + 1 implies #[trigger] glyph_rows_written(r@, font.mem@, h as int, i2, h as int) by {
            if i2 < i {
                assert(glyph_rows_written(start, font.mem@, h as int, i2, h as int));
                assert forall|row2: int| 0 <= row2 < h as int implies {
                    &&& (#[trigger] glyph_write(r@, h as int, i2, row2)).0 == 1024 + 32 * i2 + row2
                    &&& bits_reversed(glyph_write(r@, h as int, i2, row2).1, font.mem@[i2 * (h as int) + row2])
                } by {
                    assert(glyph_write(start, h as int, i2, row2) == start[i2 * h + row2]);
                    assert(0 <= i2 * h + row2 < i * h) by (nonlinear_arith)
                        requires
                            0 <= i2 < i,
                            0 <= row2 < h,
                    ;
                    assert(i * h <= r@.len());
                    assert(r@.subrange(0, i * h)[i2 * h + row2] == r@[i2 * h + row2]);
                    assert(glyph_write(r@, h as int, i2, row2) == glyph_write(start, h as int, i2, row2));
                }
                assert(glyph_rows_written(r@, font.mem@, h as int, i2, h as int));
            }
        }
        assert((i + 1) * h == i * h + h) by (nonlinear_arith);
        i = i + 1;
    }
    r
}

impl VgaVideoMode {
    /// Draws character `c` in `foreground` with its top left corner at
    /// (`x`, `y`), leaving the pixels of the glyph's clear bits as they were.
    /// The glyph must end left of the last column and above the last row.
    pub fn _vga13h_draw_char_transparent(&mut self, x: usize, y: usize, c: char, font: &VgaFont, foreground: u8)
        requires
            old(self).linear_wf(),
            x + font.width < old(self).video_width_px,
            y + font.height < old(self).video_height_px,
            font_can_draw(*font, c),
        ensures
            final(self).linear_wf(),
            final(self).video_width_px == old(self).video_width_px,
            final(self).video_height_px == old(self).video_height_px,
            final(self).mode_value == old(self).mode_value,
            final(self).video_buffer@.len() == old(self).video_buffer@.len(),
            forall|i: int|
                0 <= i < old(self).video_buffer@.len() ==> #[trigger] final(self).video_buffer@[i] == if in_rect(
                    i,
                    old(self).video_width_px as int,
                    x as int,
                    y as int,
                    font.width as int,
                    font.height as int,
                ) && glyph_bit_set(
                    font.mem@,
                    glyph_base(*font, c),
                    font.width as int,
                    i / (old(self).video_width_px as int) - y,
                    i % (old(self).video_width_px as int) - x,
                ) {
                    foreground
                } else {
                    old(self).video_buffer@[i]
                },
    {
        let ghost old_buf = self.video_buffer@;
        let w = self.video_width_px;
        let ghost h = self.video_height_px;
        let ghost base = glyph_base(*font, c);
        let fw = font.width;
        let fh = font.height;
        let mlen = font.mem.len();
        let mut char_index = c as usize;
        if char_index < font.lochar || char_index > font.hichar {
            char_index = '?' as usize;
        }
        let mut source_char_byte: usize = (char_index - font.lochar) * font.bytes_per_char;
        assert(source_char_byte == base);
        let mut l: usize = 0;
        while l < fh
            invariant
                l <= fh,
                source_char_byte == base + l,
                base + fh <= font.mem@.len(),
                fw <= 8,
                fw == font.width,
                fh == font.height,
                self.linear_wf(),
                self.video_width_px == w,
                self.mode_value == old(self).mode_value,
                self.video_height_px == h,
                x + fw < w,
                y + fh < h,
                self.video_buffer@.len() == old_buf.len(),
                forall|k: int|
                    0 <= k < old_buf.len() ==> #[trigger] self.video_buffer@[k] == if in_rect(k, w as int, x as int, y as int, fw as int, l as int)
                        && glyph_bit_set(font.mem@, base, fw as int, k / (w as int) - y, k % (w as int) - x) {
                        foreground
                    } else {
                        old_buf[k]
                    },
            decreases fh - l,
        {
            let row_bits = font.mem[source_char_byte];
            let mut i: usize = 0;
            while i < fw
                invariant
                    i <= fw,
                    l < fh,
                    row_bits == font.mem@[base + l],
                    fw <= 8,
                    fw == font.width,
                    self.linear_wf(),
                    self.video_width_px == w,
                    self.mode_value == old(self).mode_value,
                    self.video_height_px == h,
                    x + fw < w,
                    y + fh < h,
                    self.video_buffer@.len() == old_buf.len(),
                    forall|k: int|
                        0 <= k < old_buf.len() ==> #[trigger] self.video_buffer@[k] == if (in_rect(k, w as int, x as int, y as int, fw as int, l as int)
                            || (k / (w as int) == y + l && x <= k % (w as int) < x + i)) && glyph_bit_set(
                            font.mem@,
                            base,
                            fw as int,
                            k / (w as int) - y,
                            k % (w as int) - x,
                        ) {
                            foreground
                        } else {
                            old_buf[k]
                        },
                decreases fw - i,
            {
                let shift = (fw - 1 - i) as u8;
                proof {
                    lemma_pixel_in_screen(w as int, h as int, (x + i) as int, (y + l) as int);
                    lemma_pixel_index(w as int, (x + i) as int, (y + l) as int);
                    lemma_cell_unique(w as int, (y + l) as int, (x + i) as int);
                    assert(w * (y + l) == (y + l) * w) by (nonlinear_arith);
                }
                if row_bits & (0x80u8 >> shift) != 0 {
                    self.vga13h_put_pixel(x + i, y + l, foreground);
                }
                i = i + 1;
            }
            source_char_byte = source_char_byte + 1;
            l = l + 1;
        }
    }

    /// Draws `text` in `foreground` from (`x`, `y`) on, character `i` at
    /// column `x + i * font.width`, each leaving its glyph's clear pixels
    /// as they were.
    pub fn _vga13h_draw_string(&mut self, x: usize, y: usize, text: &str, font: &VgaFont, foreground: u8)
        requires
            old(self).linear_wf(),
            text@.len() <= usize::MAX,
            text@.len() > 0 ==> x + text@.len() * font.width < old(self).video_width_px,
            text@.len() > 0 ==> y + font.height < old(self).video_height_px,
            forall|i: int| 0 <= i < text@.len() ==> font_can_draw(*font, #[trigger] text@[i]),
        ensures
            final(self).linear_wf(),
            final(self).video_width_px == old(self).video_width_px,
            final(self).video_height_px == old(self).video_height_px,
            final(self).mode_value == old(self).mode_value,
            final(self).video_buffer@.len() == old(self).video_buffer@.len(),
            forall|k: int|
                0 <= k < old(self).video_buffer@.len() ==> #[trigger] final(self).video_buffer@[k] == if exists|i: int|
                    0 <= i < text@.len() && #[trigger] string_char_covers(
                        *font,
                        text@,
                        old(self).video_width_px as int,
                        x as int,
                        y as int,
                        i,
                        k,
                    ) {
                    foreground
                } else {
                    old(self).video_buffer@[k]
                },
    {
        broadcast use vstd::string::axiom_spec_iter, vstd::string::next_postcondition;

        let ghost old_buf = self.video_buffer@;
        let ghost all = text@;
        let w = self.video_width_px;
        let mut chars = text.chars();
        let mut i: usize = 0;
        loop
            invariant_except_break
                i <= all.len(),
                chars.remaining() == all.skip(i as int),
            invariant
                self.linear_wf(),
                self.video_width_px == w,
                self.video_height_px == old(self).video_height_px,
                self.mode_value == old(self).mode_value,
                self.video_buffer@.len() == old_buf.len(),
                all == text@,
                all.len() <= usize::MAX,
                all.len() > 0 ==> x + all.len() * font.width < w,
                all.len() > 0 ==> y + font.height < self.video_height_px,
                forall|j: int| 0 <= j < all.len() ==> font_can_draw(*font, #[trigger] all[j]),
                chars.obeys_prophetic_iter_laws(),
                forall|k: int|
                    0 <= k < old_buf.len() ==> #[trigger] self.video_buffer@[k] == if exists|j: int|
                        0 <= j < i && #[trigger] string_char_covers(*font, all, w as int, x as int, y as int, j, k) {
                        foreground
                    } else {
                        old_buf[k]
                    },
            ensures
                i == all.len(),
            decreases all.len() - i,
        {
            let ghost before = self.video_buffer@;
            match chars.next() {
                Some(c) => {
                    proof {
                        assert(all.skip(i as int)[0] == all[i as int]);
                        assert(i < all.len());
                    }
                    assert(x + i * font.width + font.width < w) by (nonlinear_arith)
                        requires
                            x + all.len() * font.width < w,
                            i < all.len(),
                    ;
                    self._vga13h_draw_char_transparent(x + i * font.width, y, c, font, foreground);
                    proof {
                        assert(all.skip(i as int).drop_first() =~= all.skip(i + 1));
                        assert forall|k: int| 0 <= k < old_buf.len() implies #[trigger] self.video_buffer@[k] == if exists|j: int|
                            0 <= j < i + 1 && #[trigger] string_char_covers(*font, all, w as int, x as int, y as int, j, k) {
                            foreground
                        } else {
                            old_buf[k]
                        } by {
                            if string_char_covers(*font, all, w as int, x as int, y as int, i as int, k) {
                            } else if exists|j: int| 0 <= j < i + 1 && #[trigger] string_char_covers(*font, all, w as int, x as int, y as int, j, k) {
                                let j = choose|j: int| 0 <= j < i + 1 && #[trigger] string_char_covers(*font, all, w as int, x as int, y as int, j, k);
                                assert(j < i);
                            }
                        }
                    }
                    i = i + 1;
                },
                None => {
                    proof {
                        assert(all.skip(i as int).len() == 0);
                    }
                    break;
                },
            }
        }
    }
}

} // verus!
