//! What the kernel shows when it starts.

use vstd::prelude::*;
use vstd::pervasive::unreached;
use crate::io::PortWrite;
use crate::terminal::{
    attribute_of, cell_index, cursor_writes, print_char, set_cursor_pos, BackgroundColor, Cursor,
    ForegroundColor, ScreenUpdate, VideoWrite,
};

verus! {

/// Number of cells in each of the two rows of the welcome screen.
pub const BANNER_WIDTH: usize = 16;

/// The backgrounds of the first row, one blank cell each.
pub const BAR_COLORS: [BackgroundColor; 16] = [
    BackgroundColor::Black,
    BackgroundColor::Blue,
    BackgroundColor::Green,
    BackgroundColor::Cyan,
    BackgroundColor::Red,
    BackgroundColor::Magenta,
    BackgroundColor::Brown,
    BackgroundColor::LightGray,
    BackgroundColor::DarkGray,
    BackgroundColor::LightBlue,
    BackgroundColor::LightCyan,
    BackgroundColor::LightGreen,
    BackgroundColor::LightRed,
    BackgroundColor::LightMagenta,
    BackgroundColor::Yellow,
    BackgroundColor::White,
];

/// The text of the second row.
pub const BANNER_TEXT: [char; 16] = [
    'W', 'e', 'l', 'c', 'o', 'm', 'e', ' ', 't', 'o', ' ', 'M', 'O', 'S', '!', '!',
];

/// The colour of each character of the second row.
pub const BANNER_COLORS: [ForegroundColor; 16] = [
    ForegroundColor::Black,
    ForegroundColor::Blue,
    ForegroundColor::Green,
    ForegroundColor::Cyan,
    ForegroundColor::Red,
    ForegroundColor::Magenta,
    ForegroundColor::Brown,
    ForegroundColor::LightGray,
    ForegroundColor::DarkGray,
    ForegroundColor::LightBlue,
    ForegroundColor::LightCyan,
    ForegroundColor::LightGreen,
    ForegroundColor::LightRed,
    ForegroundColor::LightMagenta,
    ForegroundColor::Yellow,
    ForegroundColor::White,
];

/// The background behind each character of the second row.
pub const BANNER_BACKGROUNDS: [BackgroundColor; 16] = [
    BackgroundColor::White,
    BackgroundColor::White,
    BackgroundColor::White,
    BackgroundColor::White,
    BackgroundColor::White,
    BackgroundColor::White,
    BackgroundColor::White,
    BackgroundColor::White,
    BackgroundColor::White,
    BackgroundColor::White,
    BackgroundColor::White,
    BackgroundColor::White,
    BackgroundColor::White,
    BackgroundColor::White,
    BackgroundColor::White,
    BackgroundColor::Black,
];

/// The character in column `column` of row `row` of the welcome screen.
pub open spec fn welcome_char(column: int, row: int) -> char {
    if row == 0 {
        ' '
    } else {
        BANNER_TEXT@[column]
    }
}

/// The attribute byte in column `column` of row `row` of the welcome screen.
pub open spec fn welcome_attribute(column: int, row: int) -> u8 {
    if row == 0 {
        attribute_of(ForegroundColor::Black, BAR_COLORS@[column])
    } else {
        attribute_of(BANNER_COLORS@[column], BANNER_BACKGROUNDS@[column])
    }
}

/// The bytes stored for the welcome screen: the sixteen cells of row 0 and
/// then the sixteen cells of row 1, for each cell its character and then its
/// attribute byte.
pub open spec fn welcome_cells() -> Seq<VideoWrite> {
    Seq::new(
        4 * BANNER_WIDTH as nat,
        |j: int|
            {
                let column = (j / 2) % BANNER_WIDTH as int;
                let row = (j / 2) / BANNER_WIDTH as int;
                if j % 2 == 0 {
                    VideoWrite {
                        offset: (2 * cell_index(column, row)) as u16,
                        value: welcome_char(column, row) as u8,
                    }
                } else {
                    VideoWrite {
                        offset: (2 * cell_index(column, row) + 1) as u16,
                        value: welcome_attribute(column, row),
                    }
                }
            },
    )
}

/// The positions to which the welcome screen moves the cursor, in order: the
/// start of row 0 and the place after each of its cells, the same for row 1,
/// and at last the start of row 2.
pub open spec fn welcome_stop(stop: int) -> Cursor {
    if stop <= 16 {
        Cursor { x: stop as u8, y: 0 }
    } else if stop <= 33 {
        Cursor { x: (stop - 17) as u8, y: 1 }
    } else {
        Cursor { x: 0, y: 2 }
    }
}

/// The port writes of the welcome screen: the four writes of each of its 35
/// cursor movements.
pub open spec fn welcome_writes() -> Seq<PortWrite> {
    Seq::new(
        140,
        |k: int| cursor_writes(welcome_stop(k / 4).x, welcome_stop(k / 4).y)[k % 4],
    )
}

/// Draws the welcome screen: a bar of the sixteen colours in row 0, the
/// greeting in as many colours in row 1, and the cursor at the start of
/// row 2.
pub fn print_color_welcome() -> (update: ScreenUpdate)
    ensures
        update.cells@ == welcome_cells(),
        update.cursor == (Cursor { x: 0, y: 2 }),
        update.writes@ == welcome_writes(),
{
    let mut update = set_cursor_pos(0, 0);
    let mut row: u8 = 0;
    while row < 2
        invariant
            row <= 2,
            update.cursor == (Cursor { x: 0, y: row }),
            update.cells@.len() == 32 * row,
            forall|j: int| 0 <= j < 32 * row ==> update.cells@[j] == welcome_cells()[j],
            update.writes@.len() == 68 * row + 4,
            forall|k: int| 0 <= k < 68 * row + 4 ==> update.writes@[k] == welcome_writes()[k],
        decreases 2 - row,
    {
        let mut column: usize = 0;
        while column < BANNER_WIDTH
            invariant
                row < 2,
                column <= BANNER_WIDTH,
                update.cursor == (Cursor { x: column as u8, y: row }),
                update.cells@.len() == 32 * row + 2 * column,
                forall|j: int|
                    0 <= j < 32 * row + 2 * column ==> update.cells@[j] == welcome_cells()[j],
                update.writes@.len() == 68 * row + 4 * (column + 1),
                forall|k: int|
                    0 <= k < 68 * row + 4 * (column + 1) ==> update.writes@[k]
                        == welcome_writes()[k],
            decreases BANNER_WIDTH - column,
        {
            let printed = if row == 0 {
                print_char(update.cursor, ' ', ForegroundColor::Black, BAR_COLORS[column])
            } else {
                print_char(
                    update.cursor,
                    BANNER_TEXT[column],
                    BANNER_COLORS[column],
                    BANNER_BACKGROUNDS[column],
                )
            };
            match printed {
                Some(cell) => {
                    update = update.followed_by(cell);
                },
                None => {
                    unreached()
                },
            }
            column = column + 1;
        }
        update = update.followed_by(set_cursor_pos(0, row + 1));
        row = row + 1;
    }
    assert(update.cells@ =~= welcome_cells());
    assert(update.writes@ =~= welcome_writes());
    update
}

} // verus!
