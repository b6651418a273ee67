//! Text console: a 25x80 grid of character cells with a cursor on the bottom row.
//!
//! The grid is held as one flat vector of cells, row after row. `Writer` is the
//! driver; its behaviour is stated over the mathematical `ScreenState` model.
use vstd::prelude::*;
use vstd::string::StringSliceAdditionalSpecFns;

verus! {

pub const BUFFER_HEIGHT: usize = 25;

pub const BUFFER_WIDTH: usize = 80;

/// Number of cells in the grid.
pub const BUFFER_CELLS: usize = 2000;

/// Glyph written in place of a byte that is neither printable ASCII nor a line break.
pub const PLACEHOLDER_GLYPH: u8 = 0xfe;

/// The sixteen colours of the text-mode palette.
#[derive(Debug, Clone, Copy, PartialEq, Eq, Structural)]
pub enum Color {
    Black,
    Blue,
    Green,
    Cyan,
    Red,
    Magenta,
    Brown,
    LightGray,
    DarkGray,
    LightBlue,
    LightGreen,
    LightCyan,
    LightRed,
    Pink,
    Yellow,
    White,
}

/// Palette index of a colour.
pub open spec fn color_value(c: Color) -> u8 {
    match c {
        Color::Black => 0,
        Color::Blue => 1,
        Color::Green => 2,
        Color::Cyan => 3,
        Color::Red => 4,
        Color::Magenta => 5,
        Color::Brown => 6,
        Color::LightGray => 7,
        Color::DarkGray => 8,
        Color::LightBlue => 9,
        Color::LightGreen => 10,
        Color::LightCyan => 11,
        Color::LightRed => 12,
        Color::Pink => 13,
        Color::Yellow => 14,
        Color::White => 15,
    }
}

impl Color {
    /// Palette index of the colour, in 0..16.
    pub fn as_u8(self) -> (r: u8)
        ensures
            r == color_value(self),
            r < 16,
    {
        match self {
            Color::Black => 0,
            Color::Blue => 1,
            Color::Green => 2,
            Color::Cyan => 3,
            Color::Red => 4,
            Color::Magenta => 5,
            Color::Brown => 6,
            Color::LightGray => 7,
            Color::DarkGray => 8,
            Color::LightBlue => 9,
            Color::LightGreen => 10,
            Color::LightCyan => 11,
            Color::LightRed => 12,
            Color::Pink => 13,
            Color::Yellow => 14,
            Color::White => 15,
        }
    }
}

/// Packed colour byte: foreground in the low nibble, background in the high nibble.
#[derive(Debug, Clone, Copy, PartialEq, Eq, Structural)]
pub struct ColorCode(pub u8);

impl ColorCode {
    pub open spec fn spec_value(self) -> u8 {
        self.0
    }

    /// Packs a foreground and a background colour into one byte.
    pub fn new(foreground: Color, background: Color) -> (r: ColorCode)
        ensures
            r.spec_value() == color_value(background) * 16 + color_value(foreground),
            r.spec_value() % 16 == color_value(foreground),
            r.spec_value() / 16 == color_value(background),
    {
        let f = foreground.as_u8();
        let b = background.as_u8();
        let packed: u8 = b << 4u8 | f;
        assert(b << 4u8 | f == b * 16 + f) by (bit_vector)
            requires
                b < 16,
                f < 16,
        ;
        ColorCode(packed)
    }

    /// The packed byte.
    pub fn value(&self) -> (r: u8)
        ensures
            r == self.spec_value(),
    {
        self.0
    }
}

/// One cell of the grid: a character byte and its colour byte.
#[derive(Debug, Clone, Copy, PartialEq, Eq, Structural)]
pub struct ScreenCharacter {
    pub character: u8,
    pub color_code: ColorCode,
}

/// Mathematical model of the console: the cells row after row, the cursor
/// column on the bottom row, and the colour of new output.
pub struct ScreenState {
    pub cells: Seq<ScreenCharacter>,
    pub column: nat,
    pub color: ColorCode,
}

impl ScreenState {
    pub open spec fn wf(self) -> bool {
        &&& self.cells.len() == BUFFER_CELLS
        &&& self.column <= BUFFER_WIDTH
    }
}

/// Index of the first cell of the bottom row.
pub open spec fn bottom_start() -> int {
    (BUFFER_HEIGHT - 1) * BUFFER_WIDTH
}

pub open spec fn blank(color: ColorCode) -> ScreenCharacter {
    ScreenCharacter { character: 0x20, color_code: color }
}

pub open spec fn blank_row(color: ColorCode) -> Seq<ScreenCharacter> {
    Seq::new(BUFFER_WIDTH as nat, |i: int| blank(color))
}

/// Row `r` of a grid.
pub open spec fn row_of(cells: Seq<ScreenCharacter>, r: int) -> Seq<ScreenCharacter> {
    cells.subrange(r * BUFFER_WIDTH, r * BUFFER_WIDTH + BUFFER_WIDTH)
}

/// Every row moves up by one, the top row is lost, the bottom row becomes
/// blank and the cursor returns to column 0.
pub open spec fn scroll(s: ScreenState) -> ScreenState {
    ScreenState {
        cells: s.cells.subrange(BUFFER_WIDTH as int, BUFFER_CELLS as int) + blank_row(s.color),
        column: 0,
        color: s.color,
    }
}

/// Effect of writing one byte.
pub open spec fn put_byte(s: ScreenState, b: u8) -> ScreenState {
    if b == 0x0a {
        scroll(s)
    } else {
        let t = if s.column >= BUFFER_WIDTH { scroll(s) } else { s };
        ScreenState {
            cells: t.cells.update(
                bottom_start() + t.column,
                ScreenCharacter { character: b, color_code: t.color },
            ),
            column: t.column + 1,
            color: t.color,
        }
    }
}

/// Effect of writing a sequence of bytes, one after another.
pub open spec fn put_bytes(s: ScreenState, bytes: Seq<u8>) -> ScreenState
    decreases bytes.len(),
{
    if bytes.len() == 0 {
        s
    } else {
        put_byte(put_bytes(s, bytes.drop_last()), bytes.last())
    }
}

pub open spec fn is_printable(b: u8) -> bool {
    0x20 <= b <= 0x7e
}

/// The byte that the console shows for `b` in a string.
pub open spec fn shown(b: u8) -> u8 {
    if is_printable(b) || b == 0x0a {
        b
    } else {
        PLACEHOLDER_GLYPH
    }
}

pub open spec fn shown_bytes(bytes: Seq<u8>) -> Seq<u8> {
    bytes.map_values(|b: u8| shown(b))
}

/// Writes to the text grid; output always goes to the bottom row.
pub struct Writer {
    column_position: usize,
    color_code: ColorCode,
    buffer: Vec<ScreenCharacter>,
}

impl View for Writer {
    type V = ScreenState;

    closed spec fn view(&self) -> ScreenState {
        ScreenState {
            cells: self.buffer@,
            column: self.column_position as nat,
            color: self.color_code,
        }
    }
}

impl Writer {
    pub open spec fn wf(&self) -> bool {
        self@.wf()
    }

    /// A console whose grid is blank in the given colours, cursor at column 0.
    pub fn new(foreground: Color, background: Color) -> (r: Writer)
        ensures
            r.wf(),
            r@.column == 0,
            r@.color.spec_value() == color_value(background) * 16 + color_value(foreground),
            r@.cells == Seq::new(BUFFER_CELLS as nat, |i: int| blank(r@.color)),
    {
        let color_code = ColorCode::new(foreground, background);
        let cell = ScreenCharacter { character: 0x20u8, color_code };
        let mut buffer: Vec<ScreenCharacter> = Vec::new();
        let mut i: usize = 0;
        while i < BUFFER_CELLS
            invariant
                i <= BUFFER_CELLS,
                buffer@.len() == i,
                cell == blank(color_code),
                forall|j: int| 0 <= j < i ==> buffer@[j] == blank(color_code),
            decreases BUFFER_CELLS - i,
        {
            buffer.push(cell);
            i += 1;
        }
        let r = Writer { column_position: 0, color_code, buffer };
        assert(r@.cells =~= Seq::new(BUFFER_CELLS as nat, |i: int| blank(color_code)));
        r
    }

    /// Writes one byte: a line break scrolls; any other byte is stored at the
    /// cursor, after a scroll if the bottom row is full.
    pub fn write_byte(&mut self, data_to_write: u8)
        requires
            old(self).wf(),
        ensures
            final(self).wf(),
            final(self)@ == put_byte(old(self)@, data_to_write),
            data_to_write != 0x0a ==> final(self)@.cells[bottom_start() + final(self)@.column - 1]
                == (ScreenCharacter { character: data_to_write, color_code: old(self)@.color }),
    {
        if data_to_write == 0x0au8 {
            self.new_line();
        } else {
            if self.column_position >= BUFFER_WIDTH {
                self.new_line();
            }
            let col = self.column_position;
            let row = BUFFER_HEIGHT - 1;
            let color_code = self.color_code;
            self.buffer[row * BUFFER_WIDTH + col] = ScreenCharacter {
                character: data_to_write,
                color_code,
            };
            self.column_position += 1;
        }
    }

    /// Writes each byte of `s`, showing the placeholder glyph for a byte that
    /// is neither printable ASCII nor a line break.
    pub fn write_string(&mut self, s: &str)
        requires
            old(self).wf(),
        ensures
            final(self).wf(),
            final(self)@ == put_bytes(old(self)@, shown_bytes(s.spec_bytes())),
    {
        let bytes = s.as_bytes();
        let ghost start = self@;
        let mut i: usize = 0;
        while i < bytes.len()
            invariant
                0 <= i <= bytes@.len(),
                bytes@ == s.spec_bytes(),
                self.wf(),
                self@ == put_bytes(start, shown_bytes(bytes@.subrange(0, i as int))),
            decreases bytes@.len() - i,
        {
            let byte = bytes[i];
            if (0x20 <= byte && byte <= 0x7e) || byte == 0x0au8 {
                self.write_byte(byte);
            } else {
                self.write_byte(PLACEHOLDER_GLYPH);
            }
            proof {
                let prev = shown_bytes(bytes@.subrange(0, i as int));
                let next = shown_bytes(bytes@.subrange(0, i + 1));
                assert(next.drop_last() =~= prev);
                assert(next.last() == shown(byte));
            }
            i += 1;
        }
        assert(bytes@.subrange(0, bytes@.len() as int) =~= bytes@);
    }

    /// Moves every row up by one, blanks the bottom row and returns the cursor
    /// to column 0.
    fn new_line(&mut self)
        requires
            old(self).wf(),
        ensures
            final(self).wf(),
            final(self)@ == scroll(old(self)@),
    {
        let ghost before = self.buffer@;
        let mut i: usize = BUFFER_WIDTH;
        while i < BUFFER_CELLS
            invariant
                BUFFER_WIDTH <= i <= BUFFER_CELLS,
                self.buffer@.len() == BUFFER_CELLS,
                self.column_position == old(self).column_position,
                self.color_code == old(self).color_code,
                before == old(self).buffer@,
                forall|j: int| 0 <= j < i - BUFFER_WIDTH ==> self.buffer@[j] == before[j + BUFFER_WIDTH],
                forall|j: int| i - BUFFER_WIDTH <= j < BUFFER_CELLS ==> self.buffer@[j] == before[j],
            decreases BUFFER_CELLS - i,
        {
            let character = self.buffer[i];
            self.buffer[i - BUFFER_WIDTH] = character;
            i += 1;
        }
        self.clear_row(BUFFER_HEIGHT - 1);
        self.column_position = 0;
        assert(self.buffer@ =~= scroll(old(self)@).cells);
    }

    /// Fills row `row` with blanks in the current colour.
    fn clear_row(&mut self, row: usize)
        requires
            old(self).buffer@.len() == BUFFER_CELLS,
            row < BUFFER_HEIGHT,
        ensures
            final(self).buffer@.len() == BUFFER_CELLS,
            final(self).column_position == old(self).column_position,
            final(self).color_code == old(self).color_code,
            forall|j: int|
                0 <= j < BUFFER_CELLS ==> final(self).buffer@[j] == if row * BUFFER_WIDTH <= j < row
                    * BUFFER_WIDTH + BUFFER_WIDTH {
                    blank(old(self).color_code)
                } else {
                    old(self).buffer@[j]
                },
    {
        let blank_cell = ScreenCharacter { color_code: self.color_code, character: 0x20u8 };
        let mut col: usize = 0;
        while col < BUFFER_WIDTH
            invariant
                col <= BUFFER_WIDTH,
                row < BUFFER_HEIGHT,
                blank_cell == blank(old(self).color_code),
                self.buffer@.len() == BUFFER_CELLS,
                self.column_position == old(self).column_position,
                self.color_code == old(self).color_code,
                forall|j: int|
                    0 <= j < BUFFER_CELLS ==> self.buffer@[j] == if row * BUFFER_WIDTH <= j < row
                        * BUFFER_WIDTH + col {
                        blank(old(self).color_code)
                    } else {
                        old(self).buffer@[j]
                    },
            decreases BUFFER_WIDTH - col,
        {
            self.buffer[row * BUFFER_WIDTH + col] = blank_cell;
            col += 1;
        }
    }

    /// The cell at `row`, `col`.
    pub fn read_cell(&self, row: usize, col: usize) -> (r: ScreenCharacter)
        requires
            self.wf(),
            row < BUFFER_HEIGHT,
            col < BUFFER_WIDTH,
        ensures
            r == self@.cells[row * BUFFER_WIDTH + col],
    {
        self.buffer[row * BUFFER_WIDTH + col]
    }

    /// The cursor column on the bottom row.
    pub fn column_position(&self) -> (r: usize)
        ensures
            r == self@.column,
    {
        self.column_position
    }

    /// The colour of new output.
    pub fn color_code(&self) -> (r: ColorCode)
        ensures
            r == self@.color,
    {
        self.color_code
    }
}

} // verus!
