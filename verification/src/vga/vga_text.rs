use vstd::prelude::*;
use vstd::string::StringSliceAdditionalSpecFns;

verus! {

/// The sixteen text colours, numbered as the attribute byte holds them.
#[derive(Debug, Clone, Copy, PartialEq, Eq, Structural)]
pub enum Color {
    Black,
    Blue,
    Green,
    Cyan,
    Red,
    Magenta,
    Brown,
    LightGray,
    DarkGray,
    LightBlue,
    LightGreen,
    LightCyan,
    LightRed,
    Pink,
    Yellow,
    White,
}

/// A colour's number, 0 to 15.
pub open spec fn color_value(c: Color) -> u8 {
    match c {
        Color::Black => 0,
        Color::Blue => 1,
        Color::Green => 2,
        Color::Cyan => 3,
        Color::Red => 4,
        Color::Magenta => 5,
        Color::Brown => 6,
        Color::LightGray => 7,
        Color::DarkGray => 8,
        Color::LightBlue => 9,
        Color::LightGreen => 10,
        Color::LightCyan => 11,
        Color::LightRed => 12,
        Color::Pink => 13,
        Color::Yellow => 14,
        Color::White => 15,
    }
}

/// The colour numbered `v`; any number above 14 is white.
pub open spec fn color_of(v: u8) -> Color {
    if v == 0 { Color::Black }
    else if v == 1 { Color::Blue }
    else if v == 2 { Color::Green }
    else if v == 3 { Color::Cyan }
    else if v == 4 { Color::Red }
    else if v == 5 { Color::Magenta }
    else if v == 6 { Color::Brown }
    else if v == 7 { Color::LightGray }
    else if v == 8 { Color::DarkGray }
    else if v == 9 { Color::LightBlue }
    else if v == 10 { Color::LightGreen }
    else if v == 11 { Color::LightCyan }
    else if v == 12 { Color::LightRed }
    else if v == 13 { Color::Pink }
    else if v == 14 { Color::Yellow }
    else { Color::White }
}

/// A colour's number.
pub fn color_to_u8(c: Color) -> (r: u8)
    ensures
        r == color_value(c),
        r < 16,
{
    match c {
        Color::Black => 0,
        Color::Blue => 1,
        Color::Green => 2,
        Color::Cyan => 3,
        Color::Red => 4,
        Color::Magenta => 5,
        Color::Brown => 6,
        Color::LightGray => 7,
        Color::DarkGray => 8,
        Color::LightBlue => 9,
        Color::LightGreen => 10,
        Color::LightCyan => 11,
        Color::LightRed => 12,
        Color::Pink => 13,
        Color::Yellow => 14,
        Color::White => 15,
    }
}

/// An attribute byte: background colour in the upper four bits, foreground
/// colour in the lower four.
#[derive(Debug, Clone, Copy, PartialEq, Eq, Structural)]
pub struct ColorCode(pub u8);

impl ColorCode {
    /// The attribute byte for `foreground` on `background`.
    pub fn new(foreground: Color, background: Color) -> (r: Self)
        ensures
            r.0 == (color_value(background) << 4u8) | color_value(foreground),
    {
        ColorCode((color_to_u8(background) << 4u8) | color_to_u8(foreground))
    }

    /// The foreground colour: the colour of the lower four bits.
    pub fn foreground(&self) -> (r: Color)
        ensures
            r == color_of(self.0 & 0x0f),
    {
        let fg = self.0 & 0x0f;
        self.try_from_u8(fg)
    }

    /// The background colour: the colour of the upper four bits.
    pub fn background(&self) -> (r: Color)
        ensures
            r == color_of((self.0 >> 4u8) & 0x0f),
    {
        let bg = (self.0 >> 4u8) & 0x0f;
        self.try_from_u8(bg)
    }

    /// The colour numbered `v`; white for any number above 14.
    pub fn try_from_u8(&self, v: u8) -> (r: Color)
        ensures
            r == color_of(v),
    {
        if v == 0 { Color::Black }
        else if v == 1 { Color::Blue }
        else if v == 2 { Color::Green }
        else if v == 3 { Color::Cyan }
        else if v == 4 { Color::Red }
        else if v == 5 { Color::Magenta }
        else if v == 6 { Color::Brown }
        else if v == 7 { Color::LightGray }
        else if v == 8 { Color::DarkGray }
        else if v == 9 { Color::LightBlue }
        else if v == 10 { Color::LightGreen }
        else if v == 11 { Color::LightCyan }
        else if v == 12 { Color::LightRed }
        else if v == 13 { Color::Pink }
        else if v == 14 { Color::Yellow }
        else { Color::White }
    }
}

/// Building an attribute byte from two colours and reading it back gives
/// the same two colours.
pub proof fn law_color_code_roundtrip(fg: Color, bg: Color)
    ensures
        color_of(((color_value(bg) << 4u8) | color_value(fg)) & 0x0f) == fg,
        color_of(((((color_value(bg) << 4u8) | color_value(fg)) >> 4u8) & 0x0f)) == bg,
{
    let f = color_value(fg);
    let b = color_value(bg);
    assert(f < 16 && b < 16);
    assert(f < 16 && b < 16 ==> ((b << 4u8) | f) & 0x0f == f && (((b << 4u8) | f) >> 4u8) & 0x0f == b) by (bit_vector);
}

/// One character cell: the character's code and its colours.
#[derive(Debug, Clone, Copy, PartialEq, Eq, Structural)]
pub struct ScreenChar {
    pub ascii_char_code: u8,
    pub color_code: ColorCode,
}

pub const VGA_BUFFER_HEIGHT: usize = 25;
pub const VGA_BUFFER_WIDTH: usize = 80;
/// Number of character cells.
pub const VGA_BUFFER_CELLS: usize = 2000;

/// The text writer: the cursor's column and row, the colours it writes
/// with, and the character cells, row by row.
pub struct VgaTextMode {
    pub column_position: usize,
    pub row_position: usize,
    pub color_code: ColorCode,
    pub buffer: Vec<ScreenChar>,
}

/// The writer's state as values: column, row, colours and cells.
pub type TextModel = (int, int, ColorCode, Seq<ScreenChar>);

/// The cells scrolled up by a row, the last row filled with `fill`.
pub open spec fn shifted(buf: Seq<ScreenChar>, fill: ScreenChar) -> Seq<ScreenChar> {
    Seq::new(2000, |i: int| if i < 1920 { buf[i + 80] } else { fill })
}

/// The state after a new line: the next row, or the screen scrolled up on
/// the last row, and the first column.
pub open spec fn after_new_line(st: TextModel) -> TextModel {
    if st.1 + 1 >= 25 {
        (0, st.1, st.2, shifted(st.3, ScreenChar { ascii_char_code: 0x20, color_code: st.2 }))
    } else {
        (0, st.1 + 1, st.2, st.3)
    }
}

/// The state after writing `b` at the cursor: first a new line where the
/// cursor is on the last column.
pub open spec fn after_write_byte(st: TextModel, b: u8) -> TextModel {
    let s = if st.0 == 79 {
        after_new_line(st)
    } else {
        st
    };
    (s.0 + 1, s.1, s.2, s.3.update(s.1 * 80 + s.0, ScreenChar { ascii_char_code: b, color_code: s.2 }))
}

/// The state after one byte of text: printable ASCII is written, a line
/// feed starts a new line, a carriage return goes to the first column, and
/// anything else is written as `?`.
pub open spec fn after_byte(st: TextModel, b: u8) -> TextModel {
    if 0x20 <= b <= 0x7E {
        after_write_byte(st, b)
    } else if b == 0x0A {
        after_new_line(st)
    } else if b == 0x0D {
        (0, st.1, st.2, st.3)
    } else {
        after_write_byte(st, 0x3F)
    }
}

/// The state after the bytes `s`, in order.
pub open spec fn after_bytes(st: TextModel, s: Seq<u8>) -> TextModel
    decreases s.len(),
{
    if s.len() == 0 {
        st
    } else {
        after_byte(after_bytes(st, s.drop_last()), s.last())
    }
}

impl View for VgaTextMode {
    type V = TextModel;

    open spec fn view(&self) -> TextModel {
        (self.column_position as int, self.row_position as int, self.color_code, self.buffer@)
    }
}

impl VgaTextMode {
    /// The writer's invariant: the cursor on the screen, left of the last
    /// column, and all the cells there.
    pub open spec fn wf(&self) -> bool {
        &&& self.column_position < 80
        &&& self.row_position < 25
        &&& self.buffer@.len() == 2000
    }

    /// A writer at the top left corner, white on black, over blank cells.
    pub fn new() -> (r: Self)
        ensures
            r.wf(),
            r.column_position == 0,
            r.row_position == 0,
            r.color_code.0 == (color_value(Color::Black) << 4u8) | color_value(Color::White),
            r.buffer@ == Seq::new(2000, |i: int| ScreenChar { ascii_char_code: 0, color_code: ColorCode(0) }),
    {
        let mut buffer: Vec<ScreenChar> = Vec::new();
        let mut i: usize = 0;
        while i < VGA_BUFFER_CELLS
            invariant
                i <= 2000,
                buffer@ == Seq::new(i as nat, |k: int| ScreenChar { ascii_char_code: 0, color_code: ColorCode(0) }),
            decreases 2000 - i,
        {
            buffer.push(ScreenChar { ascii_char_code: 0, color_code: ColorCode(0) });
            i = i + 1;
            assert(buffer@ =~= Seq::new(i as nat, |k: int| ScreenChar { ascii_char_code: 0, color_code: ColorCode(0) }));
        }
        Self {
            column_position: 0,
            row_position: 0,
            color_code: ColorCode::new(Color::White, Color::Black),
            buffer,
        }
    }

    /// Writes the text `s`.
    pub fn write(&mut self, s: &str)
        requires
            old(self).wf(),
        ensures
            final(self).wf(),
            final(self)@ == after_bytes(old(self)@, s.spec_bytes()),
    {
        let bytes = s.as_bytes();
        let ghost start = self@;
        let mut i: usize = 0;
        while i < bytes.len()
            invariant
                self.wf(),
                i <= bytes@.len(),
                bytes@ == s.spec_bytes(),
                self@ == after_bytes(start, bytes@.take(i as int)),
            decreases bytes@.len() - i,
        {
            let byte = bytes[i];
            if 0x20 <= byte && byte <= 0x7E {
                self.write_byte(byte);
            } else if byte == 0x0A {
                self.new_line();
            } else if byte == 0x0D {
                self.column_position = 0;
            } else {
                self.write_byte(0x3F);
            }
            assert(bytes@.take(i as int + 1).drop_last() =~= bytes@.take(i as int));
            i = i + 1;
        }
        assert(bytes@.take(i as int) =~= bytes@);
    }

    pub fn change_foreground_color(&mut self, fc: Color)
        ensures
            final(self).color_code.0 == (color_value(color_of((old(self).color_code.0 >> 4u8) & 0x0f)) << 4u8) | color_value(fc),
            final(self).column_position == old(self).column_position,
            final(self).row_position == old(self).row_position,
            final(self).buffer@ == old(self).buffer@,
    {
        self.color_code = ColorCode::new(fc, self.color_code.background());
    }

    pub fn change_background_color(&mut self, bc: Color)
        ensures
            final(self).color_code.0 == (color_value(bc) << 4u8) | color_value(color_of(old(self).color_code.0 & 0x0f)),
            final(self).column_position == old(self).column_position,
            final(self).row_position == old(self).row_position,
            final(self).buffer@ == old(self).buffer@,
    {
        self.color_code = ColorCode::new(self.color_code.foreground(), bc);
    }

    pub fn change_color(&mut self, fc: Color, bc: Color)
        ensures
            final(self).color_code.0 == (color_value(bc) << 4u8) | color_value(fc),
            final(self).column_position == old(self).column_position,
            final(self).row_position == old(self).row_position,
            final(self).buffer@ == old(self).buffer@,
    {
        self.color_code = ColorCode::new(fc, bc);
    }

    fn write_byte(&mut self, byte: u8)
        requires
            old(self).wf(),
        ensures
            final(self).wf(),
            final(self)@ == after_write_byte(old(self)@, byte),
    {
        if self.column_position == VGA_BUFFER_WIDTH - 1 {
            self.new_line();
        }
        let row = self.row_position;
        let col = self.column_position;
        let color_code = self.color_code;
        self.buffer.set(row * VGA_BUFFER_WIDTH + col, ScreenChar { ascii_char_code: byte, color_code });
        self.column_position = self.column_position + 1;
    }

    fn new_line(&mut self)
        requires
            old(self).wf(),
        ensures
            final(self).wf(),
            final(self)@ == after_new_line(old(self)@),
    {
        if self.row_position + 1 >= VGA_BUFFER_HEIGHT {
            self.shift_up();
        } else {
            self.row_position = self.row_position + 1;
        }
        self.column_position = 0;
    }

    /// Scrolls the screen up by a row; the last row is blanked in the
    /// current colours.
    pub fn shift_up(&mut self)
        requires
            old(self).buffer@.len() == 2000,
        ensures
            final(self).buffer@ == shifted(old(self).buffer@, ScreenChar { ascii_char_code: 0x20, color_code: old(self).color_code }),
            final(self).column_position == old(self).column_position,
            final(self).row_position == old(self).row_position,
            final(self).color_code == old(self).color_code,
    {
        let ghost before = self.buffer@;
        let ghost col = self.column_position;
        let ghost row = self.row_position;
        let ghost cc = self.color_code;
        let mut i: usize = 0;
        while i < 1920
            invariant
                i <= 1920,
                before.len() == 2000,
                self.buffer@.len() == 2000,
                self.column_position == col,
                self.row_position == row,
                self.color_code == cc,
                forall|k: int| 0 <= k < i ==> self.buffer@[k] == before[k + 80],
                forall|k: int| i <= k < 2000 ==> self.buffer@[k] == before[k],
            decreases 1920 - i,
        {
            let c = self.buffer[i + 80];
            self.buffer.set(i, c);
            i = i + 1;
        }
        let fill = ScreenChar { ascii_char_code: 0x20, color_code: self.color_code };
        let mut j: usize = 1920;
        while j < 2000
            invariant
                1920 <= j <= 2000,
                before.len() == 2000,
                self.buffer@.len() == 2000,
                self.column_position == col,
                self.row_position == row,
                self.color_code == cc,
                fill.color_code == cc,
                fill.ascii_char_code == 0x20,
                forall|k: int| 0 <= k < 1920 ==> self.buffer@[k] == before[k + 80],
                forall|k: int| 1920 <= k < j ==> self.buffer@[k] == fill,
            decreases 2000 - j,
        {
            self.buffer.set(j, fill);
            j = j + 1;
        }
        assert(self.buffer@ =~= shifted(before, fill));
    }
}

/// Writing keeps the cursor on the screen and never past the last column
/// but one.
pub proof fn law_write_keeps_cursor_on_screen(st: TextModel, b: u8)
    requires
        0 <= st.0 < 80,
        0 <= st.1 < 25,
        st.3.len() == 2000,
    ensures
        0 <= after_byte(st, b).0 < 80,
        0 <= after_byte(st, b).1 < 25,
        after_byte(st, b).3.len() == 2000,
{
}

} // verus!
