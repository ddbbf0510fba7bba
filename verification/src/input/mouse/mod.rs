//! The mouse cursor: its bitmap and the framebuffer writes that draw it,
//! clipped to the screen.
pub mod mouse;

use vstd::prelude::*;

verus! {

/// A transparent cursor pixel.
pub const T: u8 = 0;
/// A black cursor pixel.
pub const B: u8 = 1;
/// A white cursor pixel.
pub const W: u8 = 2;

/// The cursor is a square of this many pixels a side.
pub const CURSOR_DIMENSIONS: isize = 16;
/// Number of pixels of the cursor bitmap.
pub const CURSOR_BYTE_SIZE: usize = 256;

/// The white pixels of row `row` of the arrow, one bit per column.
pub open spec fn white_row(row: usize) -> u16 {
    match row {
        0 => 0x0001,
        1 => 0x0003,
        2 => 0x0005,
        3 => 0x0009,
        4 => 0x0011,
        5 => 0x0021,
        6 => 0x0041,
        7 => 0x0081,
        8 => 0x0101,
        9 => 0x0201,
        10 => 0x07C1,
        11 => 0x0049,
        12 => 0x0095,
        13 => 0x0093,
        14 => 0x0121,
        15 => 0x01C0,
        _ => 0,
    }
}

/// The black pixels of row `row` of the arrow, one bit per column.
pub open spec fn black_row(row: usize) -> u16 {
    match row {
        0 => 0x0000,
        1 => 0x0000,
        2 => 0x0002,
        3 => 0x0006,
        4 => 0x000E,
        5 => 0x001E,
        6 => 0x003E,
        7 => 0x007E,
        8 => 0x00FE,
        9 => 0x01FE,
        10 => 0x003E,
        11 => 0x0036,
        12 => 0x0062,
        13 => 0x0060,
        14 => 0x00C0,
        15 => 0x0000,
        _ => 0,
    }
}

/// The pixel of the arrow at column `x` and row `y`: white, black or
/// transparent.
pub open spec fn pointer_pixel(x: int, y: int) -> u8 {
    if (white_row(y as usize) >> (x as u16)) & 1 != 0 {
        W
    } else if (black_row(y as usize) >> (x as u16)) & 1 != 0 {
        B
    } else {
        T
    }
}

/// The white pixels of a row of the arrow.
pub fn white_row_bits(row: usize) -> (r: u16)
    ensures
        r == white_row(row),
{
    match row {
        0 => 0x0001,
        1 => 0x0003,
        2 => 0x0005,
        3 => 0x0009,
        4 => 0x0011,
        5 => 0x0021,
        6 => 0x0041,
        7 => 0x0081,
        8 => 0x0101,
        9 => 0x0201,
        10 => 0x07C1,
        11 => 0x0049,
        12 => 0x0095,
        13 => 0x0093,
        14 => 0x0121,
        15 => 0x01C0,
        _ => 0,
    }
}

/// The black pixels of a row of the arrow.
pub fn black_row_bits(row: usize) -> (r: u16)
    ensures
        r == black_row(row),
{
    match row {
        0 => 0x0000,
        1 => 0x0000,
        2 => 0x0002,
        3 => 0x0006,
        4 => 0x000E,
        5 => 0x001E,
        6 => 0x003E,
        7 => 0x007E,
        8 => 0x00FE,
        9 => 0x01FE,
        10 => 0x003E,
        11 => 0x0036,
        12 => 0x0062,
        13 => 0x0060,
        14 => 0x00C0,
        15 => 0x0000,
        _ => 0,
    }
}

/// The pixel of the arrow at column `x` and row `y`.
pub fn mouse_pointer_pixel(x: usize, y: usize) -> (r: u8)
    requires
        x < 16,
        y < 16,
    ensures
        r == pointer_pixel(x as int, y as int),
{
    let xs = x as u16;
    if (white_row_bits(y) >> xs) & 1 != 0 {
        W
    } else if (black_row_bits(y) >> xs) & 1 != 0 {
        B
    } else {
        T
    }
}

/// The visible part of the cursor at (`mx`, `my`) on a `w` by `h` screen:
/// the first visible column and row, and the column and row past the last.
pub open spec fn cursor_clip(mx: int, my: int, w: int, h: int) -> (int, int, int, int) {
    (
        if mx > 0 {
            mx
        } else {
            0
        },
        if my > 0 {
            my
        } else {
            0
        },
        if mx + 16 < w {
            mx + 16
        } else {
            w
        },
        if my + 16 < h {
            my + 16
        } else {
            h
        },
    )
}

/// The write for column `cx` and row `cy` of the visible part: the byte
/// offset of the screen pixel and its colour, or nothing for a transparent
/// pixel.
pub open spec fn cursor_write(
    mx: int,
    my: int,
    w: int,
    h: int,
    pitch: int,
    bpp_bytes: int,
    cy: int,
    cx: int,
) -> Option<(usize, u32)> {
    let c = cursor_clip(mx, my, w, h);
    let sx = c.0 + cx;
    let sy = c.1 + cy;
    let p = pointer_pixel(sx - mx, sy - my);
    if p == T {
        None
    } else {
        Some(
            (
                (sy * pitch + sx * bpp_bytes) as usize,
                if p == B {
                    0u32
                } else {
                    0xFFFFFFu32
                },
            ),
        )
    }
}

/// The writes for the first `n` columns of row `cy` of the visible part.
pub open spec fn cursor_row_writes(
    mx: int,
    my: int,
    w: int,
    h: int,
    pitch: int,
    bpp_bytes: int,
    cy: int,
    n: int,
) -> Seq<(usize, u32)>
    decreases n,
{
    if n <= 0 {
        Seq::empty()
    } else {
        let before = cursor_row_writes(mx, my, w, h, pitch, bpp_bytes, cy, n - 1);
        match cursor_write(mx, my, w, h, pitch, bpp_bytes, cy, n - 1) {
            Some(x) => before.push(x),
            None => before,
        }
    }
}

/// The writes for the first `m` rows of the visible part, row by row.
pub open spec fn cursor_writes(
    mx: int,
    my: int,
    w: int,
    h: int,
    pitch: int,
    bpp_bytes: int,
    m: int,
) -> Seq<(usize, u32)>
    decreases m,
{
    if m <= 0 {
        Seq::empty()
    } else {
        let c = cursor_clip(mx, my, w, h);
        cursor_writes(mx, my, w, h, pitch, bpp_bytes, m - 1) + cursor_row_writes(
            mx,
            my,
            w,
            h,
            pitch,
            bpp_bytes,
            m - 1,
            c.2 - c.0,
        )
    }
}

/// The framebuffer writes that draw the cursor at (`mouse_x`, `mouse_y`):
/// for every non-transparent pixel of its visible part, row by row, the
/// byte offset and the colour (black or white). `None` where no part of
/// the cursor is on screen, and nothing is to be drawn, not even a buffer
/// swap.
pub fn draw_cursor(
    mouse_x: isize,
    mouse_y: isize,
    fb_width: usize,
    fb_height: usize,
    fb_pitch: usize,
    fb_bpp: usize,
) -> (r: Option<Vec<(usize, u32)>>)
    requires
        mouse_x + 16 <= isize::MAX,
        mouse_y + 16 <= isize::MAX,
        fb_width <= isize::MAX,
        fb_height <= isize::MAX,
        fb_height * fb_pitch + fb_width * (fb_bpp / 8) <= isize::MAX,
    ensures
        ({
            let c = cursor_clip(mouse_x as int, mouse_y as int, fb_width as int, fb_height as int);
            match r {
                None => c.0 >= c.2 || c.1 >= c.3,
                Some(v) => c.0 < c.2 && c.1 < c.3 && v@ == cursor_writes(
                    mouse_x as int,
                    mouse_y as int,
                    fb_width as int,
                    fb_height as int,
                    fb_pitch as int,
                    (fb_bpp / 8) as int,
                    c.3 - c.1,
                ),
            }
        }),
{
    let ghost c = cursor_clip(mouse_x as int, mouse_y as int, fb_width as int, fb_height as int);
    let start_x = if mouse_x > 0 {
        mouse_x
    } else {
        0
    };
    let start_y = if mouse_y > 0 {
        mouse_y
    } else {
        0
    };
    let end_x = if mouse_x + CURSOR_DIMENSIONS < fb_width as isize {
        mouse_x + CURSOR_DIMENSIONS
    } else {
        fb_width as isize
    };
    let end_y = if mouse_y + CURSOR_DIMENSIONS < fb_height as isize {
        mouse_y + CURSOR_DIMENSIONS
    } else {
        fb_height as isize
    };
    if start_x >= end_x || start_y >= end_y {
        return None;
    }
    let bmp_offset_x = start_x - mouse_x;
    let bmp_offset_y = start_y - mouse_y;
    let draw_width = end_x - start_x;
    let draw_height = end_y - start_y;
    let bpp_bytes = fb_bpp / 8;
    let ghost (mx, my, w, h, pitch, bb) = (
        mouse_x as int,
        mouse_y as int,
        fb_width as int,
        fb_height as int,
        fb_pitch as int,
        bpp_bytes as int,
    );
    let mut writes: Vec<(usize, u32)> = Vec::new();
    let mut cy: isize = 0;
    while cy < draw_height
        invariant
            c == cursor_clip(mx, my, w, h),
            mx == mouse_x,
            my == mouse_y,
            w == fb_width,
            h == fb_height,
            pitch == fb_pitch,
            bb == bpp_bytes,
            start_x == c.0,
            start_y == c.1,
            end_x == c.2,
            end_y == c.3,
            draw_width == c.2 - c.0,
            draw_height == c.3 - c.1,
            bmp_offset_x == start_x - mouse_x,
            bmp_offset_y == start_y - mouse_y,
            0 <= bmp_offset_x < 16,
            0 <= bmp_offset_y < 16,
            0 < draw_width <= 16 - bmp_offset_x,
            0 < draw_height <= 16 - bmp_offset_y,
            0 <= start_x,
            0 <= start_y,
            end_x <= fb_width,
            end_y <= fb_height,
            fb_width <= isize::MAX,
            fb_height <= isize::MAX,
            fb_height * fb_pitch + fb_width * bpp_bytes <= isize::MAX,
            0 <= cy <= draw_height,
            writes@ == cursor_writes(mx, my, w, h, pitch, bb, cy as int),
        decreases draw_height - cy,
    {
        let screen_y = start_y + cy;
        let bmp_y = bmp_offset_y + cy;
        assert(screen_y * fb_pitch <= fb_height * fb_pitch) by (nonlinear_arith)
            requires
                0 <= screen_y < fb_height,
        ;
        assert(fb_pitch <= fb_height * fb_pitch) by (nonlinear_arith)
            requires
                fb_height >= 1,
        ;
        let fb_row_start = (screen_y * fb_pitch as isize) as usize;
        let ghost row_before = writes@;
        let mut cx: isize = 0;
        while cx < draw_width
            invariant
                c == cursor_clip(mx, my, w, h),
                mx == mouse_x,
                my == mouse_y,
                w == fb_width,
                h == fb_height,
                pitch == fb_pitch,
                bb == bpp_bytes,
                start_x == c.0,
                start_y == c.1,
                draw_width == c.2 - c.0,
                bmp_offset_x == start_x - mouse_x,
                0 <= bmp_offset_x < 16,
                0 < draw_width <= 16 - bmp_offset_x,
                0 <= start_x,
                start_x + draw_width <= fb_width,
                fb_width <= isize::MAX,
                screen_y == start_y + cy,
                0 <= screen_y < fb_height,
                bmp_y == screen_y - mouse_y,
                0 <= bmp_y < 16,
                fb_row_start == screen_y * fb_pitch,
                fb_row_start <= fb_height * fb_pitch,
                fb_height * fb_pitch + fb_width * bpp_bytes <= isize::MAX,
                0 <= cx <= draw_width,
                writes@ == row_before + cursor_row_writes(mx, my, w, h, pitch, bb, cy as int, cx as int),
            decreases draw_width - cx,
        {
            let bmp_x = bmp_offset_x + cx;
            let pixel = mouse_pointer_pixel(bmp_x as usize, bmp_y as usize);
            if pixel != T {
                let screen_x = start_x + cx;
                assert(screen_x * bpp_bytes <= fb_width * bpp_bytes) by (nonlinear_arith)
                    requires
                        0 <= screen_x < fb_width,
                ;
                let color: u32 = if pixel == B {
                    0x000000
                } else {
                    0xFFFFFF
                };
                writes.push((fb_row_start + (screen_x as usize * bpp_bytes), color));
            }
            assert(writes@ =~= row_before + cursor_row_writes(mx, my, w, h, pitch, bb, cy as int, cx + 1));
            cx = cx + 1;
        }
        cy = cy + 1;
    }
    Some(writes)
}

} // verus!
