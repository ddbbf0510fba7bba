use kernel_drivers::vga::vga_font::{font_plane_writes, VgaFont};
use kernel_drivers::vga::vga_graphics::VgaVideoMode;

// '?' (63), '@' (64) and 'A' (65), two rows each; bit c of a row byte is
// column c of the glyph.
static GLYPHS: [u8; 6] = [0b1000_0001, 0b0001_1000, 0xFF, 0xFF, 0b0000_0101, 0b1000_0000];

fn font() -> VgaFont<'static> {
    VgaFont { width: 8, height: 2, lochar: 63, hichar: 65, bytes_per_char: 2, mem: &GLYPHS }
}

fn px(m: &VgaVideoMode, x: usize, y: usize) -> u8 {
    m.video_buffer[y * 320 + x]
}

#[test]
fn glyph_bits_become_pixels() {
    let mut m = VgaVideoMode::new_vga_0x13_320x200_256color_mode();
    m._vga13h_draw_char_transparent(10, 10, 'A', &font(), 4);
    assert_eq!(px(&m, 10, 10), 4);
    assert_eq!(px(&m, 11, 10), 0);
    assert_eq!(px(&m, 12, 10), 4);
    assert_eq!(px(&m, 17, 11), 4);
    assert_eq!(px(&m, 10, 11), 0);
    let set = m.video_buffer.iter().filter(|&&b| b == 4).count();
    assert_eq!(set, 3);
}

#[test]
fn unknown_characters_draw_a_question_mark() {
    let mut m = VgaVideoMode::new_vga_0x13_320x200_256color_mode();
    m._vga13h_draw_char_transparent(0, 0, 'z', &font(), 1);
    assert_eq!(px(&m, 0, 0), 1);
    assert_eq!(px(&m, 7, 0), 1);
    assert_eq!(px(&m, 3, 1), 1);
    assert_eq!(px(&m, 4, 1), 1);
    assert_eq!(m.video_buffer.iter().filter(|&&b| b == 1).count(), 4);
}

#[test]
fn transparent_drawing_keeps_the_background() {
    let mut m = VgaVideoMode::new_vga_0x13_320x200_256color_mode();
    m._vga13h_fill_rect(0, 0, 20, 5, 9);
    m._vga13h_draw_char_transparent(0, 0, 'A', &font(), 4);
    assert_eq!(px(&m, 0, 0), 4);
    assert_eq!(px(&m, 1, 0), 9);
}

#[test]
fn strings_advance_by_the_glyph_width() {
    let mut m = VgaVideoMode::new_vga_0x13_320x200_256color_mode();
    m._vga13h_draw_string(0, 0, "A?", &font(), 2);
    assert_eq!(px(&m, 0, 0), 2);
    assert_eq!(px(&m, 2, 0), 2);
    assert_eq!(px(&m, 8, 0), 2);
    assert_eq!(px(&m, 15, 0), 2);
    assert_eq!(m.video_buffer.iter().filter(|&&b| b == 2).count(), 7);
}

#[test]
fn font_plane_bytes_are_reversed_rows() {
    let mut bytes = vec![0u8; 95 * 2];
    bytes[0] = 0b0000_0001;
    bytes[1] = 0b1100_0000;
    bytes[2 * 33 + 1] = 0b1010_0000;
    let font = VgaFont { width: 8, height: 2, lochar: 32, hichar: 126, bytes_per_char: 2, mem: &bytes };
    let writes = font_plane_writes(&font);
    assert_eq!(writes.len(), 190);
    assert_eq!(writes[0], (1024, 0b1000_0000));
    assert_eq!(writes[1], (1025, 0b0000_0011));
    assert_eq!(writes[2 * 33 + 1], (1024 + 32 * 33 + 1, 0b0000_0101));
    assert_eq!(writes[189], (1024 + 32 * 94 + 1, 0));
}
