//! The text screen: 25 rows of 80 cells, each a code point of code page 437
//! and an attribute. The writer keeps the contents of the screen and the
//! place of the cursor; the kernel binary copies the cells into video memory
//! and sends the cursor to the display controller.

use vstd::prelude::*;
use vstd::string::StrSliceExecFns;

verus! {

/// Number of rows of the screen.
pub const BUFFER_HEIGHT: usize = 25;

/// Number of cells in a row of the screen.
pub const BUFFER_WIDTH: usize = 80;

/// Number of cells of the screen.
pub const BUFFER_CELLS: usize = 2000;

/// The characters of code page 437 in the order of their code points. The
/// places of the code points 0, 32 and 255 hold a question mark.
pub const CCSID_437: &'static str = "\
    ?☺☻♥♦♣♠•◘○◙♂♀♪♫☼►◄↕‼¶§▬↨↑↓→←∟↔▲▼?!\"#$%&'()*+,-./0123456789:;<=>?\
    @ABCDEFGHIJKLMNOPQRSTUVWXYZ[\\]^_`abcdefghijklmnopqrstuvwxyz{|}~⌂\
    ÇüéâäàåçêëèïîìÄÅÉæÆôöòûùÿÖÜ¢£¥₧ƒáíóúñÑªº¿⌐¬½¼¡«»░▒▓│┤╡╢╖╕╣║╗╝╜╛┐\
    └┴┬├─┼╞╟╚╔╩╦╠═╬╧╨╤╥╙╘╒╓╫╪┘┌█▄▌▐▀αßΓπΣσµτΦΘΩδ∞φε∩≡±≥≤⌠⌡÷≈°∙·√ⁿ²■?\
";

/// The sixteen colours of the text screen.
#[derive(Clone, Copy, Debug, PartialEq, Eq, Structural)]
pub enum Color {
    Black,
    Blue,
    Green,
    Cyan,
    Red,
    Magenta,
    Brown,
    LightGray,
    DarkGray,
    LightBlue,
    LightGreen,
    LightCyan,
    LightRed,
    LightMagenta,
    Yellow,
    White,
}

/// Foreground and background colour of a cell: the background in the upper
/// four bits, the foreground in the lower four.
#[derive(Clone, Copy, Debug, PartialEq, Eq, Structural)]
pub struct Attribute(pub u8);

/// A cell of the screen.
#[derive(Clone, Copy, Debug, PartialEq, Eq, Structural)]
pub struct VgaCharacter {
    pub character: u8,
    pub attribute: Attribute,
}

/// The screen as the writer sees it: the place of the cursor, the attribute
/// that new characters get, and the cells row by row.
pub struct Screen {
    pub row: int,
    pub col: int,
    pub attribute: Attribute,
    pub cells: Seq<VgaCharacter>,
}

/// Keeps the screen and writes text to it.
pub struct Writer {
    row_position: usize,
    col_position: usize,
    attribute: Attribute,
    buffer: [VgaCharacter; 2000],
}

impl Color {
    /// The number of the colour.
    pub open spec fn code(self) -> u8 {
        match self {
            Color::Black => 0x00,
            Color::Blue => 0x01,
            Color::Green => 0x02,
            Color::Cyan => 0x03,
            Color::Red => 0x04,
            Color::Magenta => 0x05,
            Color::Brown => 0x06,
            Color::LightGray => 0x07,
            Color::DarkGray => 0x08,
            Color::LightBlue => 0x09,
            Color::LightGreen => 0x0a,
            Color::LightCyan => 0x0b,
            Color::LightRed => 0x0c,
            Color::LightMagenta => 0x0d,
            Color::Yellow => 0x0e,
            Color::White => 0x0f,
        }
    }

    /// The number of the colour.
    pub fn as_u8(self) -> (code: u8)
        ensures
            code == self.code(),
    {
        match self {
            Color::Black => 0x00,
            Color::Blue => 0x01,
            Color::Green => 0x02,
            Color::Cyan => 0x03,
            Color::Red => 0x04,
            Color::Magenta => 0x05,
            Color::Brown => 0x06,
            Color::LightGray => 0x07,
            Color::DarkGray => 0x08,
            Color::LightBlue => 0x09,
            Color::LightGreen => 0x0a,
            Color::LightCyan => 0x0b,
            Color::LightRed => 0x0c,
            Color::LightMagenta => 0x0d,
            Color::Yellow => 0x0e,
            Color::White => 0x0f,
        }
    }
}

/// The attribute of `foreground` on `background`.
pub open spec fn attribute_of(foreground: Color, background: Color) -> Attribute {
    Attribute((background.code() * 16 + foreground.code()) as u8)
}

impl Attribute {
    /// The attribute of `foreground` on `background`.
    pub fn new(foreground: Color, background: Color) -> (attribute: Attribute)
        ensures
            attribute == attribute_of(foreground, background),
    {
        let high = background.as_u8();
        let low = foreground.as_u8();
        assert(high < 16 && low < 16 ==> (high << 4 | low) == high * 16 + low) by (bit_vector);
        Attribute(high << 4 | low)
    }
}

impl Default for Attribute {
    /// White on black.
    fn default() -> (attribute: Attribute)
        ensures
            attribute == attribute_of(Color::White, Color::Black),
    {
        Attribute::new(Color::White, Color::Black)
    }
}

/// An empty cell: a space, white on black.
pub open spec fn blank() -> VgaCharacter {
    VgaCharacter { character: 0x20, attribute: attribute_of(Color::White, Color::Black) }
}

/// Where `character` stands in `table`: the index of its first occurrence.
pub open spec fn position_of(table: Seq<char>, character: char) -> Option<int> {
    if exists|index: int| 0 <= index < table.len() && table[index] == character {
        Some(
            choose|index: int|
                0 <= index < table.len() && table[index] == character && forall|earlier: int|
                    0 <= earlier < index ==> table[earlier] != character,
        )
    } else {
        None
    }
}

/// The byte that stands for `character` in a cell: its own code for an
/// ASCII character, its code point in code page 437 where it has one, and a
/// question mark else.
pub open spec fn cell_byte(character: char) -> u8 {
    if (character as u32) < 0x80 {
        character as u8
    } else {
        match position_of(CCSID_437@, character) {
            Some(index) => (index % 256) as u8,
            None => 0x3f,
        }
    }
}

impl Screen {
    /// The cursor is on the screen, or just behind the end of a row, and the
    /// screen has all its cells.
    pub open spec fn wf(self) -> bool {
        &&& 0 <= self.row < 25
        &&& 0 <= self.col <= 80
        &&& self.cells.len() == 2000
    }

    /// The cell in row `row` and column `col`.
    pub open spec fn cell(self, row: int, col: int) -> VgaCharacter {
        self.cells[row * 80 + col]
    }

    /// The screen with the cell in row `row` and column `col` emptied.
    pub open spec fn clear(self, row: int, col: int) -> Screen {
        Screen {
            row: self.row,
            col: self.col,
            attribute: self.attribute,
            cells: self.cells.update(row * 80 + col, blank()),
        }
    }

    /// The screen with every cell emptied.
    pub open spec fn clear_all(self) -> Screen {
        Screen {
            row: self.row,
            col: self.col,
            attribute: self.attribute,
            cells: Seq::new(2000, |index: int| blank()),
        }
    }

    /// The screen with the cursor at the start of the next row. From the
    /// last row the cursor stays in it: every row moves up by one, the first
    /// is lost and the last is emptied.
    pub open spec fn new_line(self) -> Screen {
        if self.row + 1 < 25 {
            Screen { row: self.row + 1, col: 0, attribute: self.attribute, cells: self.cells }
        } else {
            Screen {
                row: self.row,
                col: 0,
                attribute: self.attribute,
                cells: Seq::new(
                    2000,
                    |index: int|
                        if index < 1920 {
                            self.cells[index + 80]
                        } else {
                            blank()
                        },
                ),
            }
        }
    }

    /// The screen with `byte` written at the cursor in the current
    /// attribute, and the cursor one cell on. A cursor behind the end of a
    /// row first goes to the next row.
    pub open spec fn write_byte(self, byte: u8) -> Screen {
        let at = if self.col >= 80 {
            self.new_line()
        } else {
            self
        };
        Screen {
            row: at.row,
            col: at.col + 1,
            attribute: at.attribute,
            cells: at.cells.update(
                at.row * 80 + at.col,
                VgaCharacter { character: byte, attribute: at.attribute },
            ),
        }
    }

    /// The screen with `character` written: a line feed or a carriage
    /// return starts a new row, a tabulator writes four spaces, and any
    /// other character writes the byte that stands for it.
    pub open spec fn write_char(self, character: char) -> Screen {
        if character == '\n' || character == '\r' {
            self.new_line()
        } else if character == '\t' {
            self.write_byte(0x20).write_byte(0x20).write_byte(0x20).write_byte(0x20)
        } else {
            self.write_byte(cell_byte(character))
        }
    }

    /// The screen with the characters of `text` written one after another.
    pub open spec fn write_string(self, text: Seq<char>) -> Screen
        decreases text.len(),
    {
        if text.len() == 0 {
            self
        } else {
            self.write_string(text.drop_last()).write_char(text.last())
        }
    }

    /// Place of the cursor, counted in cells from the start of the screen.
    pub open spec fn cursor(self) -> int {
        self.row * 80 + self.col
    }
}

impl View for Writer {
    type V = Screen;

    closed spec fn view(&self) -> Screen {
        Screen {
            row: self.row_position as int,
            col: self.col_position as int,
            attribute: self.attribute,
            cells: self.buffer@,
        }
    }
}

impl Writer {
    /// The cursor is on the screen, or just behind the end of a row.
    #[verifier::type_invariant]
    spec fn cursor_on_screen(self) -> bool {
        self.row_position < BUFFER_HEIGHT && self.col_position <= BUFFER_WIDTH
    }

    /// A writer with the cursor at the start of an empty screen, writing
    /// white on black.
    pub fn new() -> (writer: Writer)
        ensures
            writer@.wf(),
            writer@ == (Screen {
                row: 0,
                col: 0,
                attribute: attribute_of(Color::White, Color::Black),
                cells: Seq::new(2000, |index: int| blank()),
            }),
    {
        let attribute = Attribute::default();
        let writer = Writer {
            row_position: 0,
            col_position: 0,
            attribute,
            buffer: [VgaCharacter { character: 0x20, attribute }; 2000],
        };
        assert(writer.buffer@ =~= Seq::new(2000, |index: int| blank()));
        writer
    }

    /// From now on characters are written in `fg` on `bg`.
    pub fn set_attribute(&mut self, fg: Color, bg: Color)
        ensures
            final(self)@ == (Screen {
                row: old(self)@.row,
                col: old(self)@.col,
                attribute: attribute_of(fg, bg),
                cells: old(self)@.cells,
            }),
            final(self)@.wf(),
    {
        proof {
            use_type_invariant(&*self);
        }
        self.attribute = Attribute::new(fg, bg);
    }

    /// From now on characters are written in white on black.
    pub fn reset_attribute(&mut self)
        ensures
            final(self)@ == (Screen {
                row: old(self)@.row,
                col: old(self)@.col,
                attribute: attribute_of(Color::White, Color::Black),
                cells: old(self)@.cells,
            }),
            final(self)@.wf(),
    {
        proof {
            use_type_invariant(&*self);
        }
        self.attribute = Attribute::default();
    }

    /// The cell in row `row` and column `col`.
    pub fn cell(&self, row: usize, col: usize) -> (cell: VgaCharacter)
        requires
            row < BUFFER_HEIGHT,
            col < BUFFER_WIDTH,
        ensures
            cell == self@.cell(row as int, col as int),
    {
        self.buffer[row * BUFFER_WIDTH + col]
    }

    /// Row and column of the cursor.
    pub fn position(&self) -> (position: (usize, usize))
        ensures
            position.0 == self@.row,
            position.1 == self@.col,
    {
        (self.row_position, self.col_position)
    }

    /// The two words that tell the display controller where the cursor is:
    /// the low byte of the place of the cursor with the register number
    /// 0x0f, then its high byte with the register number 0x0e.
    pub fn update_cursor(&self) -> (words: (u16, u16))
        ensures
            words.0 == (self@.cursor() % 256) * 256 + 0x0f,
            words.1 == (self@.cursor() / 256) * 256 + 0x0e,
    {
        proof {
            use_type_invariant(self);
        }
        let pos = (self.row_position * BUFFER_WIDTH + self.col_position) as u16;
        assert(pos <= 2000 ==> (pos << 8 | 0x0f) == (pos % 256) * 256 + 0x0f) by (bit_vector);
        assert(pos <= 2000 ==> (pos & 0xff00 | 0x0e) == (pos / 256) * 256 + 0x0e) by (bit_vector);
        (pos << 8 | 0x0f, pos & 0xff00 | 0x0e)
    }

    /// Empties the cell in row `row` and column `col`.
    pub fn clear(&mut self, row: usize, col: usize)
        requires
            row < BUFFER_HEIGHT,
            col < BUFFER_WIDTH,
        ensures
            final(self)@ == old(self)@.clear(row as int, col as int),
            final(self)@.wf(),
    {
        proof {
            use_type_invariant(&*self);
        }
        self.buffer[row * BUFFER_WIDTH + col] = VgaCharacter {
            character: 0x20,
            attribute: Attribute::default(),
        };
    }

    /// Moves the cursor to the start of the next row, and moves the rows up
    /// where there is no next row.
    pub fn new_line(&mut self)
        ensures
            final(self)@ == old(self)@.new_line(),
            final(self)@.wf(),
    {
        proof {
            use_type_invariant(&*self);
        }
        self.col_position = 0;
        if self.row_position + 1 < BUFFER_HEIGHT {
            self.row_position = self.row_position + 1;
            return;
        }
        let ghost before = self.buffer@;
        let empty = VgaCharacter { character: 0x20, attribute: Attribute::default() };
        let mut index: usize = 0;
        while index < BUFFER_CELLS
            invariant
                index <= BUFFER_CELLS,
                empty == blank(),
                self.row_position == old(self).row_position,
                self.row_position < BUFFER_HEIGHT,
                self.col_position == 0,
                self.attribute == old(self).attribute,
                before == old(self).buffer@,
                forall|i: int|
                    0 <= i < index ==> self.buffer@[i] == (if i < 1920 {
                        before[i + 80]
                    } else {
                        blank()
                    }),
                forall|i: int| index <= i < 2000 ==> self.buffer@[i] == before[i],
            decreases BUFFER_CELLS - index,
        {
            if index < BUFFER_CELLS - BUFFER_WIDTH {
                let moved = self.buffer[index + BUFFER_WIDTH];
                self.buffer[index] = moved;
            } else {
                self.buffer[index] = empty;
            }
            index = index + 1;
        }
        assert(self@.cells =~= old(self)@.new_line().cells);
    }

    /// Writes `byte` at the cursor and moves the cursor one cell on.
    pub fn write_byte(&mut self, byte: u8)
        ensures
            final(self)@ == old(self)@.write_byte(byte),
            final(self)@.wf(),
    {
        proof {
            use_type_invariant(&*self);
        }
        if self.col_position >= BUFFER_WIDTH {
            self.new_line();
        }
        self.buffer[self.row_position * BUFFER_WIDTH + self.col_position] = VgaCharacter {
            character: byte,
            attribute: self.attribute,
        };
        self.col_position = self.col_position + 1;
    }

    /// Writes `character` at the cursor.
    pub fn write_char(&mut self, character: char)
        ensures
            final(self)@ == old(self)@.write_char(character),
            final(self)@.wf(),
    {
        if character == '\n' || character == '\r' {
            self.new_line();
        } else if character == '\t' {
            self.write_byte(0x20);
            self.write_byte(0x20);
            self.write_byte(0x20);
            self.write_byte(0x20);
        } else {
            self.write_byte(byte_for(character));
        }
    }

    /// Writes the characters of `string` one after another.
    pub fn write_string(&mut self, string: &str)
        ensures
            final(self)@ == old(self)@.write_string(string@),
            final(self)@.wf(),
    {
        proof {
            use_type_invariant(&*self);
        }
        let length = string.unicode_len();
        let mut index: usize = 0;
        assert(string@.take(0) =~= Seq::<char>::empty());
        while index < length
            invariant
                index <= length,
                length == string@.len(),
                self@.wf(),
                self@ == old(self)@.write_string(string@.take(index as int)),
            decreases length - index,
        {
            let character = string.get_char(index);
            self.write_char(character);
            proof {
                let longer = string@.take(index + 1);
                assert(longer.drop_last() =~= string@.take(index as int));
                assert(longer.last() == character);
            }
            index = index + 1;
        }
        assert(string@.take(length as int) =~= string@);
    }
}

/// The byte that stands for `character` in a cell.
pub fn byte_for(character: char) -> (byte: u8)
    ensures
        byte == cell_byte(character),
{
    if (character as u32) < 0x80 {
        return character as u8;
    }
    let length = CCSID_437.unicode_len();
    let mut index: usize = 0;
    while index < length
        invariant
            index <= length,
            length == CCSID_437@.len(),
            (character as u32) >= 0x80,
            forall|earlier: int| 0 <= earlier < index ==> CCSID_437@[earlier] != character,
        decreases length - index,
    {
        if CCSID_437.get_char(index) == character {
            proof {
                let table = CCSID_437@;
                let first = index as int;
                assert(0 <= first < table.len() && table[first] == character && forall|earlier: int|
                    0 <= earlier < first ==> table[earlier] != character);
                let chosen = position_of(table, character).unwrap();
                assert(chosen == first) by {
                    if chosen < first {
                        assert(table[chosen] != character);
                    } else if chosen > first {
                        assert(table[first] != character);
                    }
                }
            }
            return (index % 256) as u8;
        }
        index = index + 1;
    }
    0x3f
}

/// Empties every cell of the screen.
pub fn init(writer: &mut Writer)
    ensures
        final(writer)@ == old(writer)@.clear_all(),
        final(writer)@.wf(),
{
    proof {
        use_type_invariant(&*writer);
    }
    let empty = VgaCharacter { character: 0x20, attribute: Attribute::default() };
    let mut index: usize = 0;
    while index < BUFFER_CELLS
        invariant
            index <= BUFFER_CELLS,
            empty == blank(),
            writer.row_position == old(writer).row_position,
            writer.col_position == old(writer).col_position,
            writer.row_position < BUFFER_HEIGHT,
            writer.col_position <= BUFFER_WIDTH,
            writer.attribute == old(writer).attribute,
            forall|i: int| 0 <= i < index ==> writer.buffer@[i] == blank(),
        decreases BUFFER_CELLS - index,
    {
        writer.buffer[index] = empty;
        index = index + 1;
    }
    assert(writer@.cells =~= old(writer)@.clear_all().cells);
}

} // verus!
