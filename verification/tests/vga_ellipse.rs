use kernel_drivers::vga::vga_graphics::VgaVideoMode;

fn screen() -> VgaVideoMode {
    VgaVideoMode::new_vga_0x13_320x200_256color_mode()
}

fn px(m: &VgaVideoMode, x: usize, y: usize) -> u8 {
    m.video_buffer[y * 320 + x]
}

/// The points of the walk for an ellipse centred at column `x`, as the
/// drawing code steps through them.
fn walk(x: i64, w: i64, h: i64) -> Vec<(i64, i64)> {
    let (ww, hh) = (w * w, h * h);
    let (mut xp, mut yp, mut dx, mut dy) = (0i64, h, 0i64, h * ww * 2);
    let mut d = hh + (x * x) / 4 - ww * h;
    let mut pts = Vec::new();
    while dx < dy {
        pts.push((xp, yp));
        if d < 0 {
            xp += 1;
            dx += hh * 2;
            d += dx + hh;
        } else {
            xp += 1;
            yp -= 1;
            dx += hh * 2;
            dy -= ww * 2;
            d += dx - dy + hh;
        }
    }
    d = hh * xp * xp + ww * (yp - 1) * (yp - 1) - ww * hh;
    while yp >= 0 {
        pts.push((xp, yp));
        if d > 0 {
            yp -= 1;
            dy -= ww * 2;
            d += ww - dy;
        } else {
            yp -= 1;
            xp += 1;
            dx += hh * 2;
            dy -= ww * 2;
            d += dx - dy + x * x;
        }
    }
    pts
}

#[test]
fn outline_is_the_mirrored_walk() {
    let mut m = screen();
    m._vga13h_draw_elipse(100, 100, 20, 10, 5);
    let pts = walk(100, 20, 10);
    assert_eq!(pts.len(), 23);
    let mut expected = vec![0u8; 320 * 200];
    for &(xp, yp) in &pts {
        for (cx, cy) in [(100 + xp, 100 + yp), (100 - xp, 100 + yp), (100 - xp, 100 - yp), (100 + xp, 100 - yp)] {
            expected[(cy * 320 + cx) as usize] = 5;
        }
    }
    assert!(m.video_buffer == expected);
    assert_eq!(px(&m, 100, 110), 5);
    assert_eq!(px(&m, 100, 90), 5);
    assert_eq!(px(&m, 119, 100), 5);
    assert_eq!(px(&m, 81, 100), 5);
    assert_eq!(px(&m, 100, 100), 0);
}

#[test]
fn filled_ellipse_covers_its_outline() {
    let mut outline = screen();
    outline._vga13h_draw_elipse(50, 50, 10, 10, 1);
    let mut filled = screen();
    filled._vga13h_fill_elipse(50, 50, 10, 10, 1);
    for i in 0..320 * 200 {
        if outline.video_buffer[i] == 1 {
            assert_eq!(filled.video_buffer[i], 1);
        }
    }
    // the middle row is filled from edge to edge
    for x in 41..=59 {
        assert_eq!(px(&filled, x, 50), 1);
    }
    assert_eq!(px(&filled, 40, 50), 0);
    assert_eq!(px(&filled, 60, 50), 0);
    assert_eq!(px(&filled, 50, 50), 1);
}

#[test]
fn filled_ellipse_rows_are_mirrored() {
    let mut m = screen();
    m._vga13h_fill_elipse(40, 60, 30, 20, 2);
    for r in 0..=20 {
        for x in 0..320 {
            assert_eq!(px(&m, x, 60 + r), px(&m, x, 60 - r));
        }
    }
}
