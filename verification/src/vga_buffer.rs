//! The text screen: its colours, its cells, and a writer that fills the
//! bottom line and scrolls.
//!
//! The writer works on a copy of the screen in ordinary memory. Bringing
//! that copy to the device is the caller's business.

use vstd::prelude::*;
use vstd::string::StringSliceAdditionalSpecFns;

verus! {

/// The sixteen colours of the text screen.
#[derive(Debug, Clone, Copy, PartialEq, Eq, Structural)]
pub enum Color {
    Black,
    Blue,
    Green,
    Cyan,
    Read,
    Magenta,
    Brown,
    LightGray,
    DaryGray,
    LightBlue,
    LightGreen,
    LightCyan,
    LightRed,
    LightMagenta,
    Yellow,
    White,
}

impl Color {
    /// The number of the colour, 0 to 15.
    pub open spec fn spec_number(self) -> u8 {
        match self {
            Color::Black => 0,
            Color::Blue => 1,
            Color::Green => 2,
            Color::Cyan => 3,
            Color::Read => 4,
            Color::Magenta => 5,
            Color::Brown => 6,
            Color::LightGray => 7,
            Color::DaryGray => 8,
            Color::LightBlue => 9,
            Color::LightGreen => 10,
            Color::LightCyan => 11,
            Color::LightRed => 12,
            Color::LightMagenta => 13,
            Color::Yellow => 14,
            Color::White => 15,
        }
    }

    /// The number of the colour, 0 to 15.
    pub fn number(self) -> (r: u8)
        ensures
            r == self.spec_number(),
            r <= 15,
    {
        match self {
            Color::Black => 0,
            Color::Blue => 1,
            Color::Green => 2,
            Color::Cyan => 3,
            Color::Read => 4,
            Color::Magenta => 5,
            Color::Brown => 6,
            Color::LightGray => 7,
            Color::DaryGray => 8,
            Color::LightBlue => 9,
            Color::LightGreen => 10,
            Color::LightCyan => 11,
            Color::LightRed => 12,
            Color::LightMagenta => 13,
            Color::Yellow => 14,
            Color::White => 15,
        }
    }
}

/// The colour byte of a screen cell: the background in the high four bits,
/// the foreground in the low four.
#[derive(Debug, Clone, Copy, PartialEq, Eq, Structural)]
pub struct ColorCode(pub u8);

impl ColorCode {
    /// The colour byte for a foreground on a background.
    pub fn new(f_ground: Color, b_ground: Color) -> (r: Self)
        ensures
            r.0 == b_ground.spec_number() * 16 + f_ground.spec_number(),
    {
        let back: u8 = b_ground.number();
        let fore: u8 = f_ground.number();
        assert((back << 4) | fore == back * 16 + fore) by (bit_vector)
            requires
                back <= 15,
                fore <= 15,
        ;
        ColorCode((back << 4) | fore)
    }
}

/// A cell of the text screen: a character and its colours.
#[derive(Debug, Clone, Copy, PartialEq, Eq, Structural)]
pub struct ScreenCharacter {
    /// The character, in the screen's code page.
    pub ascii_ch: u8,
    /// The colours of the cell.
    pub color_code: ColorCode,
}

/// Number of lines of the screen.
pub const BUFFER_HEIGHT: usize = 25;

/// Number of cells of a line.
pub const BUFFER_WIDTH: usize = 80;

/// Number of cells of the screen.
pub const BUFFER_CELLS: usize = 2000;

/// The byte that is shown for a byte that cannot be printed.
pub const UNPRINTABLE: u8 = 0xfe;

/// The cells of the screen, line by line from the top.
#[derive(Debug, Clone, Copy)]
pub struct Buffer {
    chars: [ScreenCharacter; 2000],
}

/// Writes bytes to the bottom line of the screen and scrolls the screen up
/// when the line is full or ends.
#[derive(Debug, Clone, Copy)]
pub struct Writer {
    col_pos: usize,
    color_code: ColorCode,
    buffer: Buffer,
}

/// What a writer holds.
pub struct WriterView {
    /// The column of the bottom line that the next byte goes to.
    pub col_pos: int,
    /// The colours of what is written.
    pub color_code: ColorCode,
    /// The cells of the screen, line by line from the top.
    pub cells: Seq<ScreenCharacter>,
}

/// An empty cell in the given colours.
pub open spec fn blank(color_code: ColorCode) -> ScreenCharacter {
    ScreenCharacter { ascii_ch: 0x20, color_code }
}

/// The byte that is shown for `byte`: itself if it is printable or ends the
/// line, else the mark for unprintable bytes.
pub open spec fn shown_byte(byte: u8) -> u8 {
    if (0x20 <= byte <= 0x7e) || byte == 0x0a {
        byte
    } else {
        UNPRINTABLE
    }
}

impl WriterView {
    /// The cell in line `row` at column `col`.
    pub open spec fn cell(self, row: int, col: int) -> ScreenCharacter {
        self.cells[row * BUFFER_WIDTH + col]
    }

    /// Whether the column is on the screen or just behind the line, and the
    /// screen has all its cells.
    pub open spec fn wf(self) -> bool {
        0 <= self.col_pos <= BUFFER_WIDTH && self.cells.len() == BUFFER_CELLS
    }

    /// Line `row` emptied.
    pub open spec fn clear_row(self, row: int) -> WriterView {
        WriterView {
            cells: Seq::new(
                BUFFER_CELLS as nat,
                |i: int|
                    if row * BUFFER_WIDTH <= i < (row + 1) * BUFFER_WIDTH {
                        blank(self.color_code)
                    } else {
                        self.cells[i]
                    },
            ),
            ..self
        }
    }

    /// Every line moved up by one, the bottom line emptied, and the column
    /// back at the start. The top line is lost.
    pub open spec fn new_line(self) -> WriterView {
        WriterView {
            col_pos: 0,
            color_code: self.color_code,
            cells: Seq::new(
                BUFFER_CELLS as nat,
                |i: int|
                    if i < (BUFFER_HEIGHT - 1) * BUFFER_WIDTH {
                        self.cells[i + BUFFER_WIDTH]
                    } else {
                        blank(self.color_code)
                    },
            ),
        }
    }

    /// One byte written: a line feed starts a new line; any other byte goes
    /// to the bottom line at the column, after a new line if the line was
    /// full, and the column moves on.
    pub open spec fn write_byte(self, byte: u8) -> WriterView {
        if byte == 0x0a {
            self.new_line()
        } else {
            let start = if self.col_pos >= BUFFER_WIDTH {
                self.new_line()
            } else {
                self
            };
            WriterView {
                col_pos: start.col_pos + 1,
                color_code: start.color_code,
                cells: start.cells.update(
                    (BUFFER_HEIGHT - 1) * BUFFER_WIDTH + start.col_pos,
                    ScreenCharacter { ascii_ch: byte, color_code: start.color_code },
                ),
            }
        }
    }

    /// The bytes written one after the other, each as it is shown.
    pub open spec fn write_bytes(self, bytes: Seq<u8>) -> WriterView
        decreases bytes.len(),
    {
        if bytes.len() == 0 {
            self
        } else {
            self.write_bytes(bytes.drop_last()).write_byte(shown_byte(bytes.last()))
        }
    }
}

impl View for Writer {
    type V = WriterView;

    closed spec fn view(&self) -> WriterView {
        WriterView {
            col_pos: self.col_pos as int,
            color_code: self.color_code,
            cells: self.buffer.chars@,
        }
    }
}

impl Writer {
    /// Whether the column is on the screen or just behind the line.
    pub closed spec fn wf(&self) -> bool {
        self.col_pos <= BUFFER_WIDTH
    }

    /// A well-formed writer has a well-formed view.
    pub proof fn lemma_wf(&self)
        requires
            self.wf(),
        ensures
            self@.wf(),
    {
    }

    /// A writer on an empty screen, at the start of the bottom line.
    pub fn new(color_code: ColorCode) -> (r: Self)
        ensures
            r.wf(),
            r@.col_pos == 0,
            r@.color_code == color_code,
            r@.cells.len() == BUFFER_CELLS,
            forall|i: int| 0 <= i < BUFFER_CELLS ==> r@.cells[i] == blank(color_code),
    {
        let cell = ScreenCharacter { ascii_ch: 0x20, color_code };
        Writer { col_pos: 0, color_code, buffer: Buffer { chars: [cell;2000] } }
    }

    /// The column of the bottom line that the next byte goes to.
    pub fn column(&self) -> (r: usize)
        ensures
            r == self@.col_pos,
    {
        self.col_pos
    }

    /// The cell in line `row` at column `col`.
    pub fn cell(&self, row: usize, col: usize) -> (r: ScreenCharacter)
        requires
            row < BUFFER_HEIGHT,
            col < BUFFER_WIDTH,
        ensures
            r == self@.cell(row as int, col as int),
    {
        self.buffer.chars[row * BUFFER_WIDTH + col]
    }

    /// Writes one byte: a line feed starts a new line; any other byte goes
    /// to the bottom line, after a new line if the line was full.
    pub fn write_byte(&mut self, byte: u8)
        requires
            old(self).wf(),
        ensures
            final(self).wf(),
            final(self)@ == old(self)@.write_byte(byte),
    {
        if byte == 0x0a {
            self.new_line();
        } else {
            if self.col_pos >= BUFFER_WIDTH {
                self.new_line();
            }
            let row: usize = BUFFER_HEIGHT - 1;
            let col: usize = self.col_pos;
            let color_code = self.color_code;
            self.buffer.chars[row * BUFFER_WIDTH + col] = ScreenCharacter {
                ascii_ch: byte,
                color_code,
            };
            self.col_pos += 1;
        }
    }

    /// Moves every line up by one, empties the bottom line and goes back
    /// to its start.
    pub fn new_line(&mut self)
        ensures
            final(self).wf(),
            final(self)@ == old(self)@.new_line(),
    {
        let ghost before = self.buffer.chars@;
        let mut i: usize = 0;
        while i < (BUFFER_HEIGHT - 1) * BUFFER_WIDTH
            invariant
                i <= (BUFFER_HEIGHT - 1) * BUFFER_WIDTH,
                self.color_code == old(self).color_code,
                before == old(self).buffer.chars@,
                forall|j: int| 0 <= j < i ==> self.buffer.chars@[j] == before[j + BUFFER_WIDTH],
                forall|j: int| i <= j < BUFFER_CELLS ==> self.buffer.chars@[j] == before[j],
            decreases (BUFFER_HEIGHT - 1) * BUFFER_WIDTH - i,
        {
            let ch = self.buffer.chars[i + BUFFER_WIDTH];
            self.buffer.chars[i] = ch;
            i += 1;
        }
        self.clear_row(BUFFER_HEIGHT - 1);
        self.col_pos = 0;
        assert(self@.cells =~= old(self)@.new_line().cells);
    }

    /// Empties line `row`.
    pub fn clear_row(&mut self, row: usize)
        requires
            row < BUFFER_HEIGHT,
        ensures
            final(self).wf() == old(self).wf(),
            final(self)@ == old(self)@.clear_row(row as int),
    {
        let empty = ScreenCharacter { ascii_ch: 0x20, color_code: self.color_code };
        let ghost before = self.buffer.chars@;
        let mut col: usize = 0;
        while col < BUFFER_WIDTH
            invariant
                col <= BUFFER_WIDTH,
                row < BUFFER_HEIGHT,
                self.color_code == old(self).color_code,
                self.col_pos == old(self).col_pos,
                empty == blank(self.color_code),
                before == old(self).buffer.chars@,
                forall|j: int|
                    row * BUFFER_WIDTH <= j < row * BUFFER_WIDTH + col ==> self.buffer.chars@[j]
                        == empty,
                forall|j: int|
                    0 <= j < BUFFER_CELLS && !(row * BUFFER_WIDTH <= j < row * BUFFER_WIDTH + col)
                        ==> self.buffer.chars@[j] == before[j],
            decreases BUFFER_WIDTH - col,
        {
            self.buffer.chars[row * BUFFER_WIDTH + col] = empty;
            col += 1;
        }
        assert(self@.cells =~= old(self)@.clear_row(row as int).cells);
    }

    /// Writes the bytes of `s`; a byte that is neither printable nor a
    /// line feed is shown as a mark.
    pub fn write_string(&mut self, s: &str)
        requires
            old(self).wf(),
        ensures
            final(self).wf(),
            final(self)@ == old(self)@.write_bytes(s.spec_bytes()),
    {
        let bytes = s.as_bytes();
        let mut i: usize = 0;
        while i < bytes.len()
            invariant
                i <= bytes.len(),
                bytes@ == s.spec_bytes(),
                self.wf(),
                self@ == old(self)@.write_bytes(bytes@.take(i as int)),
            decreases bytes.len() - i,
        {
            let byte = bytes[i];
            proof {
                assert(bytes@.take(i + 1).drop_last() =~= bytes@.take(i as int));
            }
            if (0x20 <= byte && byte <= 0x7e) || byte == 0x0a {
                self.write_byte(byte);
            } else {
                self.write_byte(UNPRINTABLE);
            }
            i += 1;
        }
        assert(bytes@.take(i as int) =~= bytes@);
    }
}

} // verus!
