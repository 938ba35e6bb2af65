//! Text-mode display writer.
//!
//! The writer always writes into the last line of a fixed 25×80 grid of
//! screen characters and shifts every line up when a line is full or on a
//! newline byte.  The grid here is the writer's own: the embedding program
//! copies it to the memory-mapped text buffer of the display hardware,
//! which is the only part of the job that is not plain computation.

use vstd::prelude::*;

verus! {

/// Number of text rows of the display.
pub const BUFFER_HEIGHT: usize = 25;

/// Number of text columns of the display.
pub const BUFFER_WIDTH: usize = 80;

/// Substitute glyph printed in place of a byte outside the printable range.
pub const UNPRINTABLE_BYTE: u8 = 0xfe;

/// The sixteen hardware palette colors.
#[derive(Debug, Clone, Copy, PartialEq, Eq, Structural)]
pub enum Color {
    Black,
    Blue,
    Green,
    Cyan,
    Red,
    Magenta,
    Brown,
    LightGray,
    DarkGray,
    LightBlue,
    LightGreen,
    LightCyan,
    LightRed,
    Pink,
    Yellow,
    White,
}

impl Color {
    /// The palette number of the color.
    pub open spec fn spec_number(self) -> u8 {
        match self {
            Color::Black => 0,
            Color::Blue => 1,
            Color::Green => 2,
            Color::Cyan => 3,
            Color::Red => 4,
            Color::Magenta => 5,
            Color::Brown => 6,
            Color::LightGray => 7,
            Color::DarkGray => 8,
            Color::LightBlue => 9,
            Color::LightGreen => 10,
            Color::LightCyan => 11,
            Color::LightRed => 12,
            Color::Pink => 13,
            Color::Yellow => 14,
            Color::White => 15,
        }
    }

    /// The palette number of the color.
    pub fn number(self) -> (n: u8)
        ensures
            n == self.spec_number(),
            n < 16,
    {
        match self {
            Color::Black => 0,
            Color::Blue => 1,
            Color::Green => 2,
            Color::Cyan => 3,
            Color::Red => 4,
            Color::Magenta => 5,
            Color::Brown => 6,
            Color::LightGray => 7,
            Color::DarkGray => 8,
            Color::LightBlue => 9,
            Color::LightGreen => 10,
            Color::LightCyan => 11,
            Color::LightRed => 12,
            Color::Pink => 13,
            Color::Yellow => 14,
            Color::White => 15,
        }
    }
}

/// Attribute byte of a screen character: background color in the high
/// nibble, foreground color in the low nibble.
#[derive(Debug, Clone, Copy, PartialEq, Eq, Structural)]
pub struct ColorCode(pub u8);

impl ColorCode {
    /// Packs a foreground and a background color.
    pub fn new(fg: Color, bg: Color) -> (c: ColorCode)
        ensures
            c.0 == 16 * bg.spec_number() + fg.spec_number(),
    {
        let f = fg.number();
        let b = bg.number();
        proof {
            assert((b << 4) | f == 16 * b + f) by (bit_vector)
                requires b < 16u8, f < 16u8,
            ;
        }
        ColorCode((b << 4) | f)
    }
}

/// One cell of the text grid: a code-page glyph and its attribute byte.
#[derive(Debug, Clone, Copy, PartialEq, Eq, Structural)]
pub struct ScreenChar {
    pub ascii_char: u8,
    pub color_code: ColorCode,
}

/// A blank cell under the given attribute byte.
pub open spec fn blank_char(color: ColorCode) -> ScreenChar {
    ScreenChar { ascii_char: 0x20, color_code: color }
}

/// A blank row under the given attribute byte.
pub open spec fn blank_row(color: ColorCode) -> Seq<ScreenChar> {
    Seq::new(BUFFER_WIDTH as nat, |_j: int| blank_char(color))
}

/// The grid after every row moved up one place and a blank last row
/// appeared.
pub open spec fn scrolled(g: Seq<Seq<ScreenChar>>, color: ColorCode) -> Seq<Seq<ScreenChar>> {
    g.subrange(1, BUFFER_HEIGHT as int).push(blank_row(color))
}

/// Bytes the writer prints as themselves: the printable code-page range
/// and the newline byte.
pub open spec fn printable(byte: u8) -> bool {
    0x20 <= byte <= 0x7e || byte == 0x0a
}

/// Grid and cursor column after one byte is written: a newline scrolls; any
/// other byte lands in the last row at the cursor (scrolling first if the
/// row is full) and advances the cursor.
pub open spec fn spec_write_byte(
    g: Seq<Seq<ScreenChar>>,
    col: int,
    color: ColorCode,
    byte: u8,
) -> (Seq<Seq<ScreenChar>>, int) {
    if byte == 0x0a {
        (scrolled(g, color), 0)
    } else {
        let g1 = if col >= BUFFER_WIDTH { scrolled(g, color) } else { g };
        let c1: int = if col >= BUFFER_WIDTH { 0 } else { col };
        let row = BUFFER_HEIGHT - 1;
        let cell = ScreenChar { ascii_char: byte, color_code: color };
        (g1.update(row, g1[row].update(c1, cell)), c1 + 1)
    }
}

/// Grid and cursor column after a byte string is written, each byte outside
/// the printable range replaced by the substitute glyph.
pub open spec fn spec_write_string(
    g: Seq<Seq<ScreenChar>>,
    col: int,
    color: ColorCode,
    s: Seq<u8>,
) -> (Seq<Seq<ScreenChar>>, int)
    decreases s.len(),
{
    if s.len() == 0 {
        (g, col)
    } else {
        let byte = if printable(s[0]) { s[0] } else { UNPRINTABLE_BYTE };
        let step = spec_write_byte(g, col, color, byte);
        spec_write_string(step.0, step.1, color, s.drop_first())
    }
}

/// Writing a string and then one more byte is writing the extended string.
proof fn lemma_write_string_snoc(
    g: Seq<Seq<ScreenChar>>,
    col: int,
    color: ColorCode,
    s: Seq<u8>,
    byte: u8,
)
    ensures
        spec_write_string(g, col, color, s.push(byte)) == ({
            let done = spec_write_string(g, col, color, s);
            let b = if printable(byte) { byte } else { UNPRINTABLE_BYTE };
            spec_write_byte(done.0, done.1, color, b)
        }),
    decreases s.len(),
{
    if s.len() == 0 {
        let b = if printable(byte) { byte } else { UNPRINTABLE_BYTE };
        let step = spec_write_byte(g, col, color, b);
        assert(s.push(byte)[0] == byte);
        assert(s.push(byte).drop_first() =~= s);
        assert(spec_write_string(g, col, color, s.push(byte))
            == spec_write_string(step.0, step.1, color, s));
        assert(spec_write_string(step.0, step.1, color, s) == (step.0, step.1));
        assert((step.0, step.1) =~= step);
    } else {
        assert(s.push(byte)[0] == s[0]);
        assert(s.push(byte).drop_first() =~= s.drop_first().push(byte));
        let b0 = if printable(s[0]) { s[0] } else { UNPRINTABLE_BYTE };
        let step = spec_write_byte(g, col, color, b0);
        assert(spec_write_string(g, col, color, s.push(byte))
            == spec_write_string(step.0, step.1, color, s.drop_first().push(byte)));
        assert(spec_write_string(g, col, color, s)
            == spec_write_string(step.0, step.1, color, s.drop_first()));
        lemma_write_string_snoc(step.0, step.1, color, s.drop_first(), byte);
    }
}

/// The display writer: cursor column, current attribute byte, and the text
/// grid it owns.
#[derive(Debug)]
pub struct Writer {
    column_pos: usize,
    color_code: ColorCode,
    buffer: Vec<Vec<ScreenChar>>,
}

impl Writer {
    /// The text grid.
    pub closed spec fn grid(&self) -> Seq<Seq<ScreenChar>> {
        Seq::new(self.buffer@.len(), |i: int| self.buffer@[i]@)
    }

    /// The cursor position in the last row.
    pub closed spec fn col(&self) -> int {
        self.column_pos as int
    }

    /// The current attribute byte.
    pub closed spec fn color(&self) -> ColorCode {
        self.color_code
    }

    /// The grid always has its full height and width, and the cursor never
    /// lies beyond the end of a row.
    pub open spec fn wf(&self) -> bool {
        &&& self.grid().len() == BUFFER_HEIGHT
        &&& forall|r: int| 0 <= r < BUFFER_HEIGHT ==> (#[trigger] self.grid()[r]).len() == BUFFER_WIDTH
        &&& 0 <= self.col() <= BUFFER_WIDTH
    }

    /// A writer over a blank screen.
    pub fn new(color_code: ColorCode) -> (w: Writer)
        ensures
            w.wf(),
            w.col() == 0,
            w.color() == color_code,
            w.grid() =~~= Seq::new(BUFFER_HEIGHT as nat, |_r: int| blank_row(color_code)),
    {
        let mut buffer: Vec<Vec<ScreenChar>> = Vec::new();
        let mut r: usize = 0;
        while r < BUFFER_HEIGHT
            invariant
                r <= BUFFER_HEIGHT,
                buffer@.len() == r,
                forall|i: int| 0 <= i < r ==> (#[trigger] buffer@[i])@ =~= blank_row(color_code),
            decreases BUFFER_HEIGHT - r,
        {
            buffer.push(blank_row_vec(color_code));
            r = r + 1;
        }
        Writer { column_pos: 0, color_code, buffer }
    }

    /// The cell at `row`, `col`.
    pub fn char_at(&self, row: usize, col: usize) -> (c: ScreenChar)
        requires
            self.wf(),
            row < BUFFER_HEIGHT,
            col < BUFFER_WIDTH,
        ensures
            c == self.grid()[row as int][col as int],
    {
        proof {
            assert(self.grid()[row as int].len() == BUFFER_WIDTH);
        }
        self.buffer[row][col]
    }

    /// The cursor position in the last row.
    pub fn column_position(&self) -> (c: usize)
        ensures
            c == self.col(),
    {
        self.column_pos
    }

    /// Prints one byte: a newline shifts every line up; any other byte goes
    /// to the cursor in the last line (shifting first when the line is
    /// full) and advances the cursor.
    pub fn write_byte(&mut self, byte: u8)
        requires
            old(self).wf(),
        ensures
            final(self).wf(),
            final(self).color() == old(self).color(),
            final(self).grid() =~~= spec_write_byte(
                old(self).grid(),
                old(self).col(),
                old(self).color(),
                byte,
            ).0,
            final(self).col() == spec_write_byte(
                old(self).grid(),
                old(self).col(),
                old(self).color(),
                byte,
            ).1,
    {
        if byte == 0x0a {
            self.new_line();
        } else {
            if self.column_pos >= BUFFER_WIDTH {
                self.new_line();
            }
            let ghost g1 = self.grid();
            let ghost c1 = self.col();
            let row = BUFFER_HEIGHT - 1;
            let col = self.column_pos;
            let color_code = self.color_code;
            proof {
                assert(self.grid()[row as int].len() == BUFFER_WIDTH);
            }
            let mut line = self.buffer.remove(row);
            line.set(col, ScreenChar { ascii_char: byte, color_code });
            self.buffer.push(line);
            self.column_pos = col + 1;
            proof {
                let cell = ScreenChar { ascii_char: byte, color_code };
                assert(self.grid() =~~= g1.update(row as int, g1[row as int].update(c1, cell)));
            }
        }
    }

    /// Prints a byte string, substituting a marker glyph for every byte
    /// outside the printable range.
    pub fn write_string(&mut self, s: &[u8])
        requires
            old(self).wf(),
        ensures
            final(self).wf(),
            final(self).color() == old(self).color(),
            final(self).grid() =~~= spec_write_string(
                old(self).grid(),
                old(self).col(),
                old(self).color(),
                s@,
            ).0,
            final(self).col() == spec_write_string(
                old(self).grid(),
                old(self).col(),
                old(self).color(),
                s@,
            ).1,
    {
        let ghost g0 = old(self).grid();
        let ghost c0 = old(self).col();
        let ghost color = old(self).color();
        let mut i: usize = 0;
        while i < s.len()
            invariant
                i <= s@.len(),
                self.wf(),
                self.color() == color,
                self.grid() =~~= spec_write_string(g0, c0, color, s@.subrange(0, i as int)).0,
                self.col() == spec_write_string(g0, c0, color, s@.subrange(0, i as int)).1,
            decreases s@.len() - i,
        {
            let byte = s[i];
            let printed = if (0x20 <= byte && byte <= 0x7e) || byte == 0x0a {
                byte
            } else {
                UNPRINTABLE_BYTE
            };
            self.write_byte(printed);
            proof {
                lemma_write_string_snoc(g0, c0, color, s@.subrange(0, i as int), byte);
                assert(s@.subrange(0, i as int).push(s@[i as int])
                    =~= s@.subrange(0, i + 1 as int));
            }
            i = i + 1;
        }
        proof {
            assert(s@.subrange(0, s@.len() as int) =~= s@);
        }
    }

    /// Moves every line one row up, drops the first line, blanks the last
    /// line and returns the cursor to the left edge.
    fn new_line(&mut self)
        requires
            old(self).wf(),
        ensures
            final(self).wf(),
            final(self).color() == old(self).color(),
            final(self).grid() =~~= scrolled(old(self).grid(), old(self).color()),
            final(self).col() == 0,
    {
        let first = self.buffer.remove(0);
        self.buffer.push(first);
        proof {
            assert forall|r: int| 0 <= r < BUFFER_HEIGHT implies
                (#[trigger] self.grid()[r]).len() == BUFFER_WIDTH by {
                if r < BUFFER_HEIGHT - 1 {
                    assert(self.grid()[r] == old(self).grid()[r + 1]);
                } else {
                    assert(self.grid()[r] == old(self).grid()[0]);
                }
            }
            assert(self.wf());
        }
        self.clear_row(BUFFER_HEIGHT - 1);
        self.column_pos = 0;
        proof {
            assert(self.grid() =~~= scrolled(old(self).grid(), old(self).color()));
        }
    }

    /// Blanks one row.
    fn clear_row(&mut self, row: usize)
        requires
            old(self).wf(),
            row < BUFFER_HEIGHT,
        ensures
            final(self).wf(),
            final(self).color() == old(self).color(),
            final(self).col() == old(self).col(),
            final(self).grid() =~~= old(self).grid().update(row as int, blank_row(old(self).color())),
    {
        let blank = blank_row_vec(self.color_code);
        self.buffer.set(row, blank);
        proof {
            assert(self.grid()
                =~~= old(self).grid().update(row as int, blank_row(old(self).color())));
            assert(blank_row(old(self).color()).len() == BUFFER_WIDTH);
            assert forall|r: int| 0 <= r < BUFFER_HEIGHT implies
                (#[trigger] self.grid()[r]).len() == BUFFER_WIDTH by {
                if r != row {
                    assert(self.grid()[r] == old(self).grid()[r]);
                }
            }
        }
    }
}

/// Builds one blank row.
fn blank_row_vec(color: ColorCode) -> (row: Vec<ScreenChar>)
    ensures
        row@ =~= blank_row(color),
{
    let mut row: Vec<ScreenChar> = Vec::new();
    let mut j: usize = 0;
    while j < BUFFER_WIDTH
        invariant
            j <= BUFFER_WIDTH,
            row@ =~= Seq::new(j as nat, |_k: int| blank_char(color)),
        decreases BUFFER_WIDTH - j,
    {
        row.push(ScreenChar { ascii_char: 0x20, color_code: color });
        j = j + 1;
    }
    row
}

} // verus!
