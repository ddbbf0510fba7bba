use kernel_drivers::vga::registers::{
    load_4bit_color_palette_into_dac, load_8bit_color_pallet_into_dac, reverse_bits,
    set_03h_mode_regs, set_13h_mode_regs, set_320_200_mode_x_mode_regs, to_dac, PortIo,
};
use kernel_drivers::vga::vga_graphics::VgaVideoMode;
use kernel_drivers::vga::vga_text::{Color, ColorCode, ScreenChar, VgaTextMode};

fn cell(t: &VgaTextMode, row: usize, col: usize) -> ScreenChar {
    t.buffer[row * 80 + col]
}

#[test]
fn color_codes() {
    let c = ColorCode::new(Color::Yellow, Color::Blue);
    assert_eq!(c.0, 0x1E);
    assert!(c.foreground() == Color::Yellow);
    assert!(c.background() == Color::Blue);
    assert!(c.try_from_u8(200) == Color::White);
}

#[test]
fn text_is_written_at_the_cursor() {
    let mut t = VgaTextMode::new();
    t.write("hi\nA\u{e9}");
    assert_eq!(cell(&t, 0, 0).ascii_char_code, b'h');
    assert_eq!(cell(&t, 0, 1).ascii_char_code, b'i');
    assert_eq!(cell(&t, 1, 0).ascii_char_code, b'A');
    // each byte outside printable ASCII is written as '?'
    assert_eq!(cell(&t, 1, 1).ascii_char_code, b'?');
    assert_eq!(cell(&t, 1, 2).ascii_char_code, b'?');
    assert_eq!((t.row_position, t.column_position), (1, 3));
    assert!(cell(&t, 0, 0).color_code == ColorCode::new(Color::White, Color::Black));
    t.write("\rX");
    assert_eq!(cell(&t, 1, 0).ascii_char_code, b'X');
}

#[test]
fn long_lines_wrap_before_the_last_column() {
    let mut t = VgaTextMode::new();
    let line: String = std::iter::repeat('x').take(80).collect();
    t.write(&line);
    assert_eq!(cell(&t, 0, 78).ascii_char_code, b'x');
    assert_eq!(cell(&t, 0, 79).ascii_char_code, 0);
    assert_eq!(cell(&t, 1, 0).ascii_char_code, b'x');
    assert_eq!((t.row_position, t.column_position), (1, 1));
}

#[test]
fn the_screen_scrolls_on_the_last_row() {
    let mut t = VgaTextMode::new();
    t.change_color(Color::Green, Color::Red);
    t.write("top\n");
    for _ in 0..24 {
        t.write("\n");
    }
    assert_eq!(t.row_position, 24);
    // "top" has scrolled off; the new last row is blank in the current colours
    assert_ne!(cell(&t, 0, 0).ascii_char_code, b't');
    assert_eq!(cell(&t, 24, 5).ascii_char_code, b' ');
    assert!(cell(&t, 24, 5).color_code == ColorCode::new(Color::Green, Color::Red));
}

#[test]
fn colour_changes() {
    let mut t = VgaTextMode::new();
    t.change_foreground_color(Color::Cyan);
    assert!(t.color_code == ColorCode::new(Color::Cyan, Color::Black));
    t.change_background_color(Color::Brown);
    assert!(t.color_code == ColorCode::new(Color::Cyan, Color::Brown));
}

#[test]
fn mode_register_writes() {
    let w = set_13h_mode_regs();
    assert_eq!(w.len(), 98);
    assert_eq!(w[0], PortIo::OutB(0x3C2, 0x63));
    // the CRT word at index 17 goes first
    assert_eq!(w[1], PortIo::OutW(0x3D4, 0xA317));
    assert_eq!(w[2], PortIo::OutW(0x3D4, 0x5F00));
    assert_eq!(w[33], PortIo::InB(0x3DA));
    assert_eq!(w[34], PortIo::OutB(0x3C0, 0));
    assert_eq!(w[97], PortIo::OutB(0x3C0, 0x20));
    assert_eq!(set_03h_mode_regs()[0], PortIo::OutB(0x3C2, 0x67));
}

#[test]
fn palettes() {
    assert_eq!(to_dac(252), 63);
    assert_eq!(to_dac(168), 42);
    let p4 = load_4bit_color_palette_into_dac();
    assert_eq!(p4.len(), 770);
    assert_eq!(p4[2 + 3 * 9], PortIo::OutB(0x3C9, 21)); // light blue: red 84
    assert_eq!(p4[2 + 3 * 9 + 2], PortIo::OutB(0x3C9, 63)); // light blue: blue 252
    let p8 = load_8bit_color_pallet_into_dac();
    assert_eq!(p8.len(), 770);
    assert_eq!(p8[2 + 3 * 255], PortIo::OutB(0x3C9, 63));
    assert_eq!(p8[2 + 3 * 255 + 2], PortIo::OutB(0x3C9, 63));
    assert_eq!(reverse_bits(0b1000_0110), 0b0110_0001);
}

fn screen() -> VgaVideoMode {
    VgaVideoMode::new_vga_0x13_320x200_256color_mode()
}

fn px(m: &VgaVideoMode, x: usize, y: usize) -> u8 {
    m.video_buffer[y * 320 + x]
}

#[test]
fn pixels_rectangles_and_bitmaps() {
    let mut m = screen();
    m.vga13h_put_pixel(10, 2, 7);
    assert_eq!(px(&m, 10, 2), 7);
    m._vga13h_fill_rect(1, 1, 3, 2, 9);
    assert_eq!((px(&m, 1, 1), px(&m, 3, 2), px(&m, 4, 1), px(&m, 1, 3)), (9, 9, 0, 0));
    m._vga13h_clear_buffer();
    m._vga13h_draw_rect(5, 5, 4, 3, 1);
    assert_eq!((px(&m, 5, 5), px(&m, 8, 5), px(&m, 9, 6), px(&m, 6, 8)), (1, 1, 1, 1));
    assert_eq!(px(&m, 6, 6), 0);
    m._vga13h_draw_bitmap(0, 100, 2, 2, &vec![1, 2, 3, 4]);
    assert_eq!((px(&m, 0, 100), px(&m, 1, 100), px(&m, 0, 101), px(&m, 1, 101)), (1, 2, 3, 4));
    assert_eq!(VgaVideoMode::vga12h_pixel_location(13, 2), (2 * 80 + 1, 0x80 >> 5));
}

#[test]
fn lines() {
    let mut m = screen();
    m._vga13h_draw_line(0, 0, 4, 2, 5);
    // both ends are drawn, and one pixel per column for this shallow line
    assert_eq!(px(&m, 0, 0), 5);
    assert_eq!(px(&m, 4, 2), 5);
    for x in 0..5 {
        assert_eq!((0..3).filter(|y| px(&m, x, *y) == 5).count(), 1);
    }
    // nothing outside the box of the ends
    assert_eq!(px(&m, 5, 2), 0);
    assert_eq!(px(&m, 0, 3), 0);
    let mut v = screen();
    v._vga13h_draw_line(3, 9, 3, 4, 2);
    assert!((4..=9).all(|y| px(&v, 3, y) == 2));
    assert_eq!(px(&v, 3, 10), 0);
    // an end off the screen draws nothing
    let mut o = screen();
    o._vga13h_draw_line(0, 0, 320, 5, 2);
    assert!(o.video_buffer.iter().all(|b| *b == 0));
    let mut t = screen();
    t._vga13h_draw_triangle(0, 0, 10, 0, 0, 10, 3);
    assert_eq!((px(&t, 5, 0), px(&t, 0, 5), px(&t, 5, 5)), (3, 3, 3));
}

#[test]
fn mode_switch() {
    let mut m = screen();
    m.vga13h_put_pixel(1, 1, 9);
    let w = m.vga_init_mode(None).unwrap();
    assert_eq!(w.len(), 98 + 770);
    assert!(m.video_buffer.iter().all(|b| *b == 0));
    assert!(m.vga_init_mode(Some(0x13)).is_none());
    let mut h = VgaVideoMode::new_vga_0x12_640x480_16color_mode();
    assert_eq!(h.vga_init_mode(Some(0x13)).unwrap().len(), 98 + 770);
}

#[test]
fn mode_x_differs_from_13h_in_three_registers() {
    let x = set_320_200_mode_x_mode_regs();
    let m = set_13h_mode_regs();
    assert_eq!(x.len(), m.len());
    let diff: Vec<usize> = (0..x.len()).filter(|&k| x[k] != m[k]).collect();
    assert_eq!(diff.len(), 3);
    assert!(x.contains(&PortIo::OutW(0x03C4, 0x0604)));
    assert!(x.contains(&PortIo::OutW(0x03D4, 0x0014)));
    assert_eq!(x[1], PortIo::OutW(0x03D4, 0xE317));
}

#[test]
fn put_pixel_keeps_mode_fields() {
    let mut m = screen();
    let (depth, width) = (m.color_depth_bits, m.pixel_width);
    m.vga13h_put_pixel(10, 3, 0x2A);
    assert_eq!(m.video_buffer[3 * 320 + 10], 0x2A);
    assert_eq!((m.color_depth_bits, m.pixel_width), (depth, width));
}
