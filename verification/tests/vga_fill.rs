use kernel_drivers::vga::vga_graphics::VgaVideoMode;

fn screen() -> VgaVideoMode {
    VgaVideoMode::new_vga_0x13_320x200_256color_mode()
}

fn px(m: &VgaVideoMode, x: usize, y: usize) -> u8 {
    m.video_buffer[y * 320 + x]
}

#[test]
fn flat_bottom_triangle_rows() {
    let mut m = screen();
    m._vga13h_fill_triangle(10, 10, 10, 20, 20, 20, 7);
    for k in 0..=10 {
        let row = 10 + k;
        assert_eq!(px(&m, 10, row), 7);
        assert_eq!(px(&m, 10 + k, row), 7);
        assert_eq!(px(&m, 11 + k, row), 0);
        assert_eq!(px(&m, 9, row), 0);
    }
    assert_eq!(px(&m, 10, 9), 0);
    assert_eq!(px(&m, 10, 21), 0);
}

#[test]
fn flat_top_triangle_rows() {
    let mut m = screen();
    m._vga13h_fill_triangle(10, 10, 20, 10, 15, 20, 3);
    for x in 10..=20 {
        assert_eq!(px(&m, x, 10), 3);
    }
    assert_eq!(px(&m, 9, 10), 0);
    assert_eq!(px(&m, 21, 10), 0);
    assert_eq!(px(&m, 15, 20), 3);
    assert_eq!(px(&m, 14, 20), 0);
    assert_eq!(px(&m, 16, 20), 0);
    assert_eq!(px(&m, 15, 19), 3);
    assert_eq!(px(&m, 16, 19), 3);
    assert_eq!(px(&m, 17, 19), 0);
}

#[test]
fn general_triangle_stays_in_its_box() {
    let mut m = screen();
    m._vga13h_fill_triangle(2, 10, 0, 0, 10, 5, 9);
    let mut painted = 0;
    for y in 0..200 {
        for x in 0..320 {
            if px(&m, x, y) == 9 {
                painted += 1;
                assert!(x <= 10 && y <= 10, "pixel ({}, {}) outside the box", x, y);
            }
        }
    }
    assert!(painted > 0);
    // the corners themselves are painted
    assert_eq!(px(&m, 0, 0), 9);
    assert_eq!(px(&m, 10, 5), 9);
    assert_eq!(px(&m, 2, 10), 9);
}

#[test]
fn corner_off_screen_draws_nothing() {
    let mut m = screen();
    m._vga13h_fill_triangle(0, 0, 321, 5, 10, 10, 9);
    assert!(m.video_buffer.iter().all(|&b| b == 0));
    m._vga13h_fill_triangle(0, 0, 5, 201, 10, 10, 9);
    assert!(m.video_buffer.iter().all(|&b| b == 0));
}

#[test]
fn degenerate_row_draws_nothing() {
    let mut m = screen();
    m._vga13h_fill_triangle(0, 7, 50, 7, 100, 7, 9);
    assert!(m.video_buffer.iter().all(|&b| b == 0));
}
