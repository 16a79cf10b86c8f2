//! The text-mode screen, as values.
//!
//! The screen is 80 columns by 25 rows. Each cell takes two bytes of video
//! memory: the character, then an attribute byte that holds the foreground
//! colour in its low half and the background colour in its high half. The
//! hardware cursor is moved through two ports.
//!
//! Nothing here touches video memory or a port. A function returns the bytes
//! to store as [`VideoWrite`]s and the cursor movement as port writes, and
//! takes the cursor position it starts from as an argument.

use vstd::prelude::*;
use crate::io::PortWrite;

verus! {

/// Address of the first byte of video memory.
pub const VGA_MEMORY: u64 = 0xB8000;

/// Number of columns.
pub const VGA_WIDTH: u8 = 80;

/// Number of rows.
pub const VGA_HEIGHT: u8 = 25;

/// Port that selects a register of the display controller.
pub const CURSOR_INDEX_PORT: u16 = 0x3D4;

/// Port through which the selected register is written.
pub const CURSOR_DATA_PORT: u16 = 0x3D5;

/// Register that holds the low byte of the cursor position.
pub const CURSOR_LOW_REGISTER: u8 = 0x0F;

/// Register that holds the high byte of the cursor position.
pub const CURSOR_HIGH_REGISTER: u8 = 0x0E;

/// Colour of a character.
#[derive(Clone, Copy, Debug, PartialEq, Eq, Structural)]
pub enum ForegroundColor {
    Black,
    Blue,
    Green,
    Cyan,
    Red,
    Magenta,
    Brown,
    LightGray,
    DarkGray,
    LightBlue,
    LightGreen,
    LightCyan,
    LightRed,
    LightMagenta,
    Yellow,
    White,
}

/// Colour behind a character.
#[derive(Clone, Copy, Debug, PartialEq, Eq, Structural)]
pub enum BackgroundColor {
    Black,
    Blue,
    Green,
    Cyan,
    Red,
    Magenta,
    Brown,
    LightGray,
    DarkGray,
    LightBlue,
    LightGreen,
    LightCyan,
    LightRed,
    LightMagenta,
    Yellow,
    White,
}

impl ForegroundColor {
    /// The colour's bits in an attribute byte: its number, 0 to 15.
    pub open spec fn spec_bits(self) -> u8 {
        match self {
            ForegroundColor::Black => 0x00,
            ForegroundColor::Blue => 0x01,
            ForegroundColor::Green => 0x02,
            ForegroundColor::Cyan => 0x03,
            ForegroundColor::Red => 0x04,
            ForegroundColor::Magenta => 0x05,
            ForegroundColor::Brown => 0x06,
            ForegroundColor::LightGray => 0x07,
            ForegroundColor::DarkGray => 0x08,
            ForegroundColor::LightBlue => 0x09,
            ForegroundColor::LightGreen => 0x0A,
            ForegroundColor::LightCyan => 0x0B,
            ForegroundColor::LightRed => 0x0C,
            ForegroundColor::LightMagenta => 0x0D,
            ForegroundColor::Yellow => 0x0E,
            ForegroundColor::White => 0x0F,
        }
    }

    /// The colour's bits in an attribute byte.
    pub fn bits(self) -> (bits: u8)
        ensures
            bits == self.spec_bits(),
    {
        match self {
            ForegroundColor::Black => 0x00,
            ForegroundColor::Blue => 0x01,
            ForegroundColor::Green => 0x02,
            ForegroundColor::Cyan => 0x03,
            ForegroundColor::Red => 0x04,
            ForegroundColor::Magenta => 0x05,
            ForegroundColor::Brown => 0x06,
            ForegroundColor::LightGray => 0x07,
            ForegroundColor::DarkGray => 0x08,
            ForegroundColor::LightBlue => 0x09,
            ForegroundColor::LightGreen => 0x0A,
            ForegroundColor::LightCyan => 0x0B,
            ForegroundColor::LightRed => 0x0C,
            ForegroundColor::LightMagenta => 0x0D,
            ForegroundColor::Yellow => 0x0E,
            ForegroundColor::White => 0x0F,
        }
    }
}

impl BackgroundColor {
    /// The colour's bits in an attribute byte: sixteen times its number.
    pub open spec fn spec_bits(self) -> u8 {
        match self {
            BackgroundColor::Black => 0x00,
            BackgroundColor::Blue => 0x10,
            BackgroundColor::Green => 0x20,
            BackgroundColor::Cyan => 0x30,
            BackgroundColor::Red => 0x40,
            BackgroundColor::Magenta => 0x50,
            BackgroundColor::Brown => 0x60,
            BackgroundColor::LightGray => 0x70,
            BackgroundColor::DarkGray => 0x80,
            BackgroundColor::LightBlue => 0x90,
            BackgroundColor::LightGreen => 0xA0,
            BackgroundColor::LightCyan => 0xB0,
            BackgroundColor::LightRed => 0xC0,
            BackgroundColor::LightMagenta => 0xD0,
            BackgroundColor::Yellow => 0xE0,
            BackgroundColor::White => 0xF0,
        }
    }

    /// The colour's bits in an attribute byte.
    pub fn bits(self) -> (bits: u8)
        ensures
            bits == self.spec_bits(),
    {
        match self {
            BackgroundColor::Black => 0x00,
            BackgroundColor::Blue => 0x10,
            BackgroundColor::Green => 0x20,
            BackgroundColor::Cyan => 0x30,
            BackgroundColor::Red => 0x40,
            BackgroundColor::Magenta => 0x50,
            BackgroundColor::Brown => 0x60,
            BackgroundColor::LightGray => 0x70,
            BackgroundColor::DarkGray => 0x80,
            BackgroundColor::LightBlue => 0x90,
            BackgroundColor::LightGreen => 0xA0,
            BackgroundColor::LightCyan => 0xB0,
            BackgroundColor::LightRed => 0xC0,
            BackgroundColor::LightMagenta => 0xD0,
            BackgroundColor::Yellow => 0xE0,
            BackgroundColor::White => 0xF0,
        }
    }
}

/// The attribute byte of a cell: the foreground in the low half, the
/// background in the high half.
pub open spec fn attribute_of(fg: ForegroundColor, bg: BackgroundColor) -> u8 {
    (fg.spec_bits() + bg.spec_bits()) as u8
}

/// Combines two colours into an attribute byte.
pub fn attribute(fg: ForegroundColor, bg: BackgroundColor) -> (byte: u8)
    ensures
        byte == attribute_of(fg, bg),
        byte % 16 == fg.spec_bits(),
        byte / 16 * 16 == bg.spec_bits(),
{
    fg.bits() + bg.bits()
}

/// Column and row of the cursor.
#[derive(Clone, Copy, Debug, PartialEq, Eq, Structural)]
pub struct Cursor {
    pub x: u8,
    pub y: u8,
}

/// One byte to store in video memory, `offset` bytes from its start.
#[derive(Clone, Copy, Debug, PartialEq, Eq, Structural)]
pub struct VideoWrite {
    pub offset: u16,
    pub value: u8,
}

/// A change to the screen: bytes to store in video memory, the cursor
/// position afterwards, and the port writes that move the hardware cursor
/// there.
#[derive(Debug)]
pub struct ScreenUpdate {
    pub cells: Vec<VideoWrite>,
    pub cursor: Cursor,
    pub writes: Vec<PortWrite>,
}

/// The number of the cell in column `x` of row `y`, counting along the rows.
pub open spec fn cell_index(x: int, y: int) -> int {
    y * VGA_WIDTH + x
}

proof fn lemma_cell_index_bound(x: int, y: int)
    requires
        0 <= x <= u8::MAX,
        0 <= y <= u8::MAX,
    ensures
        0 <= y * VGA_WIDTH <= 20400,
        0 <= cell_index(x, y) <= 20655,
{
    assert(0 <= y * VGA_WIDTH <= 20400) by (nonlinear_arith)
        requires
            0 <= y <= 255,
            VGA_WIDTH == 80,
    ;
}

/// The port writes that move the hardware cursor to column `x` of row `y`:
/// the low byte of the cell index, then its high byte, each after the
/// selection of its register.
pub open spec fn cursor_writes(x: u8, y: u8) -> Seq<PortWrite> {
    seq![
        PortWrite { port: CURSOR_INDEX_PORT, value: CURSOR_LOW_REGISTER },
        PortWrite { port: CURSOR_DATA_PORT, value: (cell_index(x as int, y as int) % 0x100) as u8 },
        PortWrite { port: CURSOR_INDEX_PORT, value: CURSOR_HIGH_REGISTER },
        PortWrite { port: CURSOR_DATA_PORT, value: (cell_index(x as int, y as int) / 0x100) as u8 },
    ]
}

/// Moves the cursor to column `x` of row `y`.
pub fn set_cursor_pos(x: u8, y: u8) -> (update: ScreenUpdate)
    ensures
        update.cells@.len() == 0,
        update.cursor == (Cursor { x: x, y: y }),
        update.writes@ == cursor_writes(x, y),
{
    proof {
        lemma_cell_index_bound(x as int, y as int);
    }
    let pos: u16 = y as u16 * VGA_WIDTH as u16 + x as u16;
    let mut writes: Vec<PortWrite> = Vec::new();
    writes.push(PortWrite { port: CURSOR_INDEX_PORT, value: CURSOR_LOW_REGISTER });
    writes.push(PortWrite { port: CURSOR_DATA_PORT, value: (pos % 0x100) as u8 });
    writes.push(PortWrite { port: CURSOR_INDEX_PORT, value: CURSOR_HIGH_REGISTER });
    writes.push(PortWrite { port: CURSOR_DATA_PORT, value: (pos / 0x100) as u8 });
    ScreenUpdate { cells: Vec::new(), cursor: Cursor { x: x, y: y }, writes: writes }
}

impl Cursor {
    /// Column and row as mathematical integers.
    pub open spec fn at(self) -> (int, int) {
        (self.x as int, self.y as int)
    }
}

/// Whether a column and a row each fit the byte that a [`Cursor`] has for it.
pub open spec fn representable(at: (int, int)) -> bool {
    0 <= at.0 <= u8::MAX && 0 <= at.1 <= u8::MAX
}

/// Where the cursor stands after `c` is printed at `at`: a line feed goes to
/// the start of the next row, a carriage return to the start of this row,
/// and any other character one column on.
pub open spec fn after_char(at: (int, int), c: char) -> (int, int) {
    if c == '\n' {
        (0, at.1 + 1)
    } else if c == '\r' {
        (0, at.1)
    } else {
        (at.0 + 1, at.1)
    }
}

/// Where the cursor stands after `text` is printed from `at`. The column is
/// not folded into the width of the screen here.
pub open spec fn after_text(at: (int, int), text: Seq<char>) -> (int, int)
    decreases text.len(),
{
    if text.len() == 0 {
        at
    } else {
        after_char(after_text(at, text.drop_last()), text.last())
    }
}

/// A position whose column has run past the last column, carried over to
/// the next row, once.
pub open spec fn wrapped(at: (int, int)) -> (int, int) {
    if at.0 >= VGA_WIDTH {
        (at.0 - VGA_WIDTH, at.1 + 1)
    } else {
        at
    }
}

/// The bytes stored for `c` printed at `at`: nothing for a line feed or a
/// carriage return, else the low byte of the character and the attribute,
/// in the cell at `at`.
pub open spec fn char_cells(at: (int, int), c: char, attribute: u8) -> Seq<VideoWrite> {
    if c == '\n' || c == '\r' {
        Seq::empty()
    } else {
        seq![
            VideoWrite { offset: (2 * cell_index(at.0, at.1)) as u16, value: c as u8 },
            VideoWrite { offset: (2 * cell_index(at.0, at.1) + 1) as u16, value: attribute },
        ]
    }
}

/// The bytes stored for `text` printed from `at`, in the order of the text.
pub open spec fn text_cells(at: (int, int), text: Seq<char>, attribute: u8) -> Seq<VideoWrite>
    decreases text.len(),
{
    if text.len() == 0 {
        Seq::empty()
    } else {
        text_cells(at, text.drop_last(), attribute) + char_cells(
            after_text(at, text.drop_last()),
            text.last(),
            attribute,
        )
    }
}

/// Whether `text` can be printed from `cursor` with the cursor representable
/// throughout: after every character, and after the final carry to the next
/// row.
pub open spec fn text_fits(cursor: Cursor, text: Seq<char>) -> bool {
    &&& forall|k: int|
        0 <= k <= text.len() ==> representable(#[trigger] after_text(cursor.at(), text.take(k)))
    &&& representable(wrapped(after_text(cursor.at(), text)))
}

/// Prints `msg` from `cursor` in the given colours.
///
/// Returns the bytes to store, the cursor after the text and the port writes
/// that move the hardware cursor there; or `None` if the column or the row
/// would leave the range of a byte on the way.
pub fn print_str(cursor: Cursor, msg: &str, fg: ForegroundColor, bg: BackgroundColor) -> (update:
    Option<ScreenUpdate>)
    ensures
        update is Some <==> text_fits(cursor, msg@),
        update matches Some(u) ==> {
            &&& u.cells@ == text_cells(cursor.at(), msg@, attribute_of(fg, bg))
            &&& u.cursor.at() == wrapped(after_text(cursor.at(), msg@))
            &&& u.writes@ == cursor_writes(u.cursor.x, u.cursor.y)
        },
{
    let attr = attribute(fg, bg);
    let mut x: u8 = cursor.x;
    let mut y: u8 = cursor.y;
    let mut cells: Vec<VideoWrite> = Vec::new();
    for c in it: msg.chars()
        invariant
            it.seq() == msg@,
            attr == attribute_of(fg, bg),
            (x as int, y as int) == after_text(cursor.at(), msg@.take(it.index() as int)),
            cells@ == text_cells(cursor.at(), msg@.take(it.index() as int), attr),
            forall|k: int|
                0 <= k <= it.index() ==> representable(
                    #[trigger] after_text(cursor.at(), msg@.take(k)),
                ),
    {
        proof {
            assert(msg@.take(it.index() + 1).drop_last() == msg@.take(it.index() as int));
        }
        let ghost next = after_text(cursor.at(), msg@.take(it.index() + 1));
        if c == '\n' {
            if y == u8::MAX {
                assert(!representable(next));
                return None;
            }
            y = y + 1;
            x = 0;
        } else if c == '\r' {
            x = 0;
        } else {
            proof {
                lemma_cell_index_bound(x as int, y as int);
            }
            let offset: u16 = (y as u16 * VGA_WIDTH as u16 + x as u16) * 2;
            cells.push(VideoWrite { offset: offset, value: low_byte(c) });
            cells.push(VideoWrite { offset: offset + 1, value: attr });
            if x == u8::MAX {
                assert(!representable(next));
                return None;
            }
            x = x + 1;
        }
        assert(representable(next));
    }
    proof {
        assert(msg@.take(msg@.len() as int) == msg@);
    }
    if x >= VGA_WIDTH {
        if y == u8::MAX {
            return None;
        }
        x = x - VGA_WIDTH;
        y = y + 1;
    }
    let moved = set_cursor_pos(x, y);
    Some(ScreenUpdate { cells: cells, cursor: moved.cursor, writes: moved.writes })
}

/// Whether `text` holds neither a line feed nor a carriage return.
pub open spec fn is_plain(text: Seq<char>) -> bool {
    forall|i: int| 0 <= i < text.len() ==> text[i] != '\n' && text[i] != '\r'
}

/// The bytes of a text that fills consecutive cells from `at`: byte `j`
/// goes `j` bytes after the first byte of the cell at `at`, and is character
/// `j / 2` of the text if `j` is even and the attribute if it is odd.
pub open spec fn plain_cells(at: (int, int), text: Seq<char>, attribute: u8) -> Seq<VideoWrite> {
    Seq::new(
        2 * text.len(),
        |j: int|
            VideoWrite {
                offset: (2 * cell_index(at.0, at.1) + j) as u16,
                value: if j % 2 == 0 {
                    text[j / 2] as u8
                } else {
                    attribute
                },
            },
    )
}

/// A text without line feeds and carriage returns fills consecutive cells,
/// and leaves the column advanced by its length.
pub proof fn lemma_plain_text(at: (int, int), text: Seq<char>, attribute: u8)
    requires
        is_plain(text),
    ensures
        after_text(at, text) == (at.0 + text.len(), at.1),
        text_cells(at, text, attribute) == plain_cells(at, text, attribute),
    decreases text.len(),
{
    if text.len() > 0 {
        let before = text.drop_last();
        lemma_plain_text(at, before, attribute);
        assert(cell_index(at.0 + before.len(), at.1) == cell_index(at.0, at.1) + before.len());
        assert(text_cells(at, text, attribute) =~= plain_cells(at, text, attribute));
    } else {
        assert(text_cells(at, text, attribute) =~= plain_cells(at, text, attribute));
    }
}

/// Whether `c` can be printed at `cursor` with the cursor representable
/// after it and after the final carry to the next row.
pub open spec fn char_fits(cursor: Cursor, c: char) -> bool {
    &&& representable(after_char(cursor.at(), c))
    &&& representable(wrapped(after_char(cursor.at(), c)))
}

/// Prints the single character `c` at `cursor` in the given colours, as
/// [`print_str`] prints a text of that one character.
pub fn print_char(cursor: Cursor, c: char, fg: ForegroundColor, bg: BackgroundColor) -> (update:
    Option<ScreenUpdate>)
    ensures
        update is Some <==> char_fits(cursor, c),
        update matches Some(u) ==> {
            &&& u.cells@ == char_cells(cursor.at(), c, attribute_of(fg, bg))
            &&& u.cursor.at() == wrapped(after_char(cursor.at(), c))
            &&& u.writes@ == cursor_writes(u.cursor.x, u.cursor.y)
        },
{
    let attr = attribute(fg, bg);
    let mut x: u8 = cursor.x;
    let mut y: u8 = cursor.y;
    let mut cells: Vec<VideoWrite> = Vec::new();
    if c == '\n' {
        if y == u8::MAX {
            return None;
        }
        y = y + 1;
        x = 0;
    } else if c == '\r' {
        x = 0;
    } else {
        if x == u8::MAX {
            return None;
        }
        proof {
            lemma_cell_index_bound(x as int, y as int);
        }
        let offset: u16 = (y as u16 * VGA_WIDTH as u16 + x as u16) * 2;
        cells.push(VideoWrite { offset: offset, value: low_byte(c) });
        cells.push(VideoWrite { offset: offset + 1, value: attr });
        x = x + 1;
    }
    if x >= VGA_WIDTH {
        if y == u8::MAX {
            return None;
        }
        x = x - VGA_WIDTH;
        y = y + 1;
    }
    let moved = set_cursor_pos(x, y);
    Some(ScreenUpdate { cells: cells, cursor: moved.cursor, writes: moved.writes })
}

/// Printing one character is printing the text that consists of it.
pub proof fn lemma_print_char_is_print_str(cursor: Cursor, c: char, attribute: u8)
    ensures
        text_fits(cursor, seq![c]) <==> char_fits(cursor, c),
        text_cells(cursor.at(), seq![c], attribute) == char_cells(cursor.at(), c, attribute),
        after_text(cursor.at(), seq![c]) == after_char(cursor.at(), c),
{
    let text = seq![c];
    reveal_with_fuel(after_text, 2);
    reveal_with_fuel(text_cells, 2);
    assert(text.drop_last() == Seq::<char>::empty());
    assert(after_text(cursor.at(), text) == after_char(cursor.at(), c));
    assert(text.take(1) == text);
    assert(text.take(0) == Seq::<char>::empty());
    assert(text_cells(cursor.at(), text, attribute) == char_cells(cursor.at(), c, attribute));
    if char_fits(cursor, c) {
        assert forall|k: int| 0 <= k <= text.len() implies representable(
            #[trigger] after_text(cursor.at(), text.take(k)),
        ) by {
            if k == 0 {
                assert(text.take(0) == Seq::<char>::empty());
            } else {
                assert(text.take(k) == text);
            }
        }
    }
    if text_fits(cursor, text) {
        assert(representable(after_text(cursor.at(), text.take(1))));
    }
}

/// The character that [`backspace`] leaves in the cell it clears.
pub const BLANK: u8 = 0x20;

/// The cursor one column back, or where it is if it stands in column 0.
pub open spec fn stepped_back(cursor: Cursor) -> Cursor {
    if cursor.x == 0 {
        cursor
    } else {
        Cursor { x: (cursor.x - 1) as u8, y: cursor.y }
    }
}

/// The byte stored by [`backspace`]: a blank in the cell before the cursor,
/// or nothing if the cursor stands in column 0.
pub open spec fn backspace_cells(cursor: Cursor) -> Seq<VideoWrite> {
    if cursor.x == 0 {
        Seq::empty()
    } else {
        seq![
            VideoWrite {
                offset: (2 * cell_index(cursor.x - 1, cursor.y as int)) as u16,
                value: BLANK,
            },
        ]
    }
}

/// Takes back the character before the cursor: the cursor moves one column
/// back and the character there is blanked, its colours kept. In column 0
/// nothing is taken back.
pub fn backspace(cursor: Cursor) -> (update: ScreenUpdate)
    ensures
        update.cells@ == backspace_cells(cursor),
        update.cursor == stepped_back(cursor),
        update.writes@ == cursor_writes(update.cursor.x, update.cursor.y),
{
    if cursor.x == 0 {
        set_cursor_pos(cursor.x, cursor.y)
    } else {
        let x: u8 = cursor.x - 1;
        proof {
            lemma_cell_index_bound(x as int, cursor.y as int);
        }
        let offset: u16 = (cursor.y as u16 * VGA_WIDTH as u16 + x as u16) * 2;
        let moved = set_cursor_pos(x, cursor.y);
        let mut cells: Vec<VideoWrite> = Vec::new();
        cells.push(VideoWrite { offset: offset, value: BLANK });
        ScreenUpdate { cells: cells, cursor: moved.cursor, writes: moved.writes }
    }
}

impl ScreenUpdate {
    /// This update followed by `next`: the bytes and the port writes of
    /// both, in order, and the cursor of `next`.
    pub fn followed_by(self, next: ScreenUpdate) -> (both: ScreenUpdate)
        ensures
            both.cells@ == self.cells@ + next.cells@,
            both.cursor == next.cursor,
            both.writes@ == self.writes@ + next.writes@,
    {
        let mut cells = self.cells;
        let mut writes = self.writes;
        let mut more_cells = next.cells;
        let mut more_writes = next.writes;
        cells.append(&mut more_cells);
        writes.append(&mut more_writes);
        ScreenUpdate { cells: cells, cursor: next.cursor, writes: writes }
    }
}

fn low_byte(c: char) -> (byte: u8)
    ensures
        byte == c as u8,
{
    #[verifier::truncate]
    (c as u8)
}

/// The attribute byte that [`clear_screen`] gives every cell: the chosen
/// background under a white foreground.
pub open spec fn clear_attribute(color: BackgroundColor) -> u8 {
    attribute_of(ForegroundColor::White, color)
}

/// The bytes stored by [`clear_screen`]: the attribute byte of every cell of
/// the screen, from the first cell to the last.
pub open spec fn clear_cells(color: BackgroundColor) -> Seq<VideoWrite> {
    Seq::new(
        VGA_WIDTH as nat * VGA_HEIGHT as nat,
        |cell: int| VideoWrite { offset: (2 * cell + 1) as u16, value: clear_attribute(color) },
    )
}

/// Gives the whole screen the background `color`. The characters on the
/// screen stay as they are.
pub fn clear_screen(color: BackgroundColor) -> (cells: Vec<VideoWrite>)
    ensures
        cells@ == clear_cells(color),
{
    let attr = attribute(ForegroundColor::White, color);
    let count: u16 = VGA_WIDTH as u16 * VGA_HEIGHT as u16;
    let mut cells: Vec<VideoWrite> = Vec::new();
    let mut cell: u16 = 0;
    while cell < count
        invariant
            count == 2000,
            cell <= count,
            attr == clear_attribute(color),
            cells@.len() == cell,
            forall|i: int| 0 <= i < cell ==> cells@[i] == clear_cells(color)[i],
        decreases count - cell,
    {
        cells.push(VideoWrite { offset: 2 * cell + 1, value: attr });
        cell = cell + 1;
    }
    assert(cells@ =~= clear_cells(color));
    cells
}

/// Number of hexadecimal digits in a 64-bit number.
pub const HEX_DIGITS: u8 = 16;

/// The character for one hexadecimal digit, `0` to `9` and `A` to `F`.
pub open spec fn hex_digit(nibble: u8) -> u8 {
    if nibble > 9 {
        (nibble - 10 + 0x41) as u8
    } else {
        (nibble + 0x30) as u8
    }
}

/// Byte `i` of `val`, counted from the most significant, for `i` from 0 to 7.
pub open spec fn byte_from_top(val: u64, i: int) -> u8 {
    ((val >> ((8 * (7 - i)) as u64)) & 0xFF) as u8
}

/// The sixteen hexadecimal digits of `val`, most significant first.
pub open spec fn hex_text(val: u64) -> Seq<u8> {
    Seq::new(
        HEX_DIGITS as nat,
        |k: int|
            if k % 2 == 0 {
                hex_digit(byte_from_top(val, k / 2) / 16)
            } else {
                hex_digit(byte_from_top(val, k / 2) % 16)
            },
    )
}

/// The bytes stored for the digits of `val` printed from `at`: digit `k`
/// goes to the cell `k` places after `at`, each with the attribute.
pub open spec fn number_cells(at: (int, int), val: u64, attribute: u8) -> Seq<VideoWrite> {
    Seq::new(
        2 * HEX_DIGITS as nat,
        |j: int|
            if j % 2 == 0 {
                VideoWrite {
                    offset: (2 * (cell_index(at.0, at.1) + j / 2)) as u16,
                    value: hex_text(val)[j / 2],
                }
            } else {
                VideoWrite {
                    offset: (2 * (cell_index(at.0, at.1) + j / 2) + 1) as u16,
                    value: attribute,
                }
            },
    )
}

/// Whether sixteen digits can be printed from `cursor` with the cursor
/// representable after them and after the final carry to the next row.
pub open spec fn number_fits(cursor: Cursor) -> bool {
    &&& representable((cursor.x + HEX_DIGITS, cursor.y as int))
    &&& representable(wrapped((cursor.x + HEX_DIGITS, cursor.y as int)))
}

fn hex_char(nibble: u8) -> (c: u8)
    requires
        nibble < 16,
    ensures
        c == hex_digit(nibble),
{
    if nibble > 9 {
        nibble - 10 + 0x41
    } else {
        nibble + 0x30
    }
}

/// Prints `val` from `cursor` as sixteen hexadecimal digits in the given
/// colours.
///
/// Returns the bytes to store, the cursor after the digits and the port
/// writes that move the hardware cursor there; or `None` if the column or
/// the row would leave the range of a byte.
pub fn print_u64(cursor: Cursor, val: u64, fg: ForegroundColor, bg: BackgroundColor) -> (update:
    Option<ScreenUpdate>)
    ensures
        update is Some <==> number_fits(cursor),
        update matches Some(u) ==> {
            &&& u.cells@ == number_cells(cursor.at(), val, attribute_of(fg, bg))
            &&& u.cursor.at() == wrapped((cursor.x + HEX_DIGITS, cursor.y as int))
            &&& u.writes@ == cursor_writes(u.cursor.x, u.cursor.y)
        },
{
    if cursor.x > u8::MAX - HEX_DIGITS {
        return None;
    }
    let attr = attribute(fg, bg);
    let mut x: u8 = cursor.x;
    let y: u8 = cursor.y;
    let mut cells: Vec<VideoWrite> = Vec::new();
    let mut i: u8 = 0;
    while i < 8
        invariant
            i <= 8,
            cursor.x <= u8::MAX - HEX_DIGITS,
            y == cursor.y,
            x == cursor.x + 2 * i,
            attr == attribute_of(fg, bg),
            cells@.len() == 4 * i,
            forall|j: int|
                0 <= j < 4 * i ==> cells@[j] == number_cells(cursor.at(), val, attr)[j],
        decreases 8 - i,
    {
        let shift: u64 = 8 * (7 - i as u64);
        let bits: u64 = (val >> shift) & 0xFF;
        proof {
            assert((val >> shift) & 0xFF <= 0xFF) by (bit_vector);
            lemma_cell_index_bound(x as int, y as int);
        }
        let byte: u8 = bits as u8;
        let offset: u16 = (y as u16 * VGA_WIDTH as u16 + x as u16) * 2;
        cells.push(VideoWrite { offset: offset, value: hex_char(byte / 16) });
        cells.push(VideoWrite { offset: offset + 1, value: attr });
        cells.push(VideoWrite { offset: offset + 2, value: hex_char(byte % 16) });
        cells.push(VideoWrite { offset: offset + 3, value: attr });
        x = x + 2;
        i = i + 1;
    }
    assert(cells@ =~= number_cells(cursor.at(), val, attr));
    let mut y: u8 = y;
    if x >= VGA_WIDTH {
        if y == u8::MAX {
            return None;
        }
        x = x - VGA_WIDTH;
        y = y + 1;
    }
    let moved = set_cursor_pos(x, y);
    Some(ScreenUpdate { cells: cells, cursor: moved.cursor, writes: moved.writes })
}

/// The number that a hexadecimal digit stands for.
pub open spec fn digit_value(digit: u8) -> int {
    if digit >= 0x41 {
        digit - 0x41 + 10
    } else {
        digit - 0x30
    }
}

/// The number that hexadecimal digits spell, most significant digit first.
pub open spec fn hex_value(digits: Seq<u8>) -> int
    decreases digits.len(),
{
    if digits.len() == 0 {
        0
    } else {
        16 * hex_value(digits.drop_last()) + digit_value(digits.last())
    }
}

spec fn top_digits(val: u64, count: int) -> int {
    if count <= 0 {
        0
    } else {
        (val >> ((64 - 4 * count) as u64)) as int
    }
}

proof fn lemma_shifted_digits(val: u64, shift: u64)
    by (bit_vector)
    requires
        shift <= 56,
    ensures
        (val >> shift) & 0xFF <= 0xFF,
        ((val >> shift) & 0xFF) % 16 == (val >> shift) & 0xF,
        ((val >> shift) & 0xFF) / 16 == (val >> ((shift + 4) as u64)) & 0xF,
        (val >> shift) == 16 * (val >> ((shift + 4) as u64)) + ((val >> shift) & 0xF),
        (val >> ((shift + 4) as u64)) & 0xF <= 0xF,
        (val >> shift) & 0xF <= 0xF,
        val >> 60 == (val >> 60) & 0xF,
        val >> 0 == val,
{
}

proof fn lemma_hex_prefix(val: u64, count: int)
    requires
        0 <= count <= HEX_DIGITS,
    ensures
        hex_value(hex_text(val).take(count)) == top_digits(val, count),
    decreases count,
{
    let digits = hex_text(val);
    if count > 0 {
        let k = count - 1;
        lemma_hex_prefix(val, k);
        assert(digits.take(count).drop_last() == digits.take(k));
        assert(digits.take(count).last() == digits[k]);
        let byte_shift = (8 * (7 - k / 2)) as u64;
        lemma_shifted_digits(val, byte_shift);
        if k % 2 == 0 {
            assert(digit_value(digits[k]) == (val >> ((byte_shift + 4) as u64)) & 0xF);
            if k > 0 {
                lemma_shifted_digits(val, (byte_shift + 4) as u64);
            }
        } else {
            assert(digit_value(digits[k]) == (val >> byte_shift) & 0xF);
        }
    }
}

/// The digits that [`print_u64`] prints spell the number: read as a
/// hexadecimal numeral, most significant digit first, they give `val` back.
pub proof fn lemma_hex_text_spells_value(val: u64)
    ensures
        hex_value(hex_text(val)) == val,
{
    lemma_hex_prefix(val, HEX_DIGITS as int);
    lemma_shifted_digits(val, 0);
    assert(hex_text(val).take(HEX_DIGITS as int) == hex_text(val));
}

/// Every digit that [`print_u64`] prints is one of the characters `0` to `9`
/// and `A` to `F`.
pub proof fn lemma_hex_text_is_hexadecimal(val: u64, k: int)
    requires
        0 <= k < HEX_DIGITS,
    ensures
        0x30 <= hex_text(val)[k] <= 0x39 || 0x41 <= hex_text(val)[k] <= 0x46,
{
}

} // verus!
