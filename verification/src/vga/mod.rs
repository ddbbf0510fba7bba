pub mod vga_text;
pub mod registers;
pub mod vga_graphics;
pub mod vga_lines;
pub mod vga_fill;
pub mod vga_ellipse;
pub mod vga_font;
