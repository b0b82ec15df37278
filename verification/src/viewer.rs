//! The decisions of the table view: which row a key press selects, where the
//! scroll bar stands, how wide a column is drawn, and what each key does.
//! Drawing and reading keys are left to the front end.

use crate::colors::{Color, TableColors};
use vstd::prelude::*;

verus! {

/// The number of terminal lines that one row of the table takes.
pub const ITEM_HEIGHT: usize = 4;

/// The width that is assumed for a column without any text in its cells.
pub const DEFAULT_WIDTH: usize = 10;

/// The columns of padding that are added to the widest text.
pub const PADDING: usize = 2;

/// The row below the selected one, and the first row below the last or
/// where none is selected.
pub open spec fn row_below(selected: Option<usize>, height: usize) -> int {
    match selected {
        Some(i) => if i >= height - 1 {
            0
        } else {
            i + 1
        },
        None => 0,
    }
}

/// The row above the selected one, the last row above the first, and the
/// first row where none is selected.
pub open spec fn row_above(selected: Option<usize>, height: usize) -> int {
    match selected {
        Some(i) => if i == 0 {
            height - 1
        } else {
            i - 1
        },
        None => 0,
    }
}

/// The row that moving down selects in a table of `height` rows.
pub fn next_row(selected: Option<usize>, height: usize) -> (row: usize)
    requires
        height > 0,
    ensures
        row == row_below(selected, height),
        row < height,
{
    match selected {
        Some(i) => {
            if i >= height - 1 {
                0
            } else {
                i + 1
            }
        },
        None => 0,
    }
}

/// The row that moving up selects in a table of `height` rows.
pub fn previous_row(selected: Option<usize>, height: usize) -> (row: usize)
    requires
        height > 0,
    ensures
        row == row_above(selected, height),
        selected matches Some(i) && i < height ==> row < height,
{
    match selected {
        Some(i) => {
            if i == 0 {
                height - 1
            } else {
                i - 1
            }
        },
        None => 0,
    }
}

/// The position of the scroll bar when `row` is selected.
pub fn scroll_position(row: usize) -> (position: usize)
    requires
        row * ITEM_HEIGHT <= usize::MAX,
    ensures
        position == row * ITEM_HEIGHT,
{
    row * ITEM_HEIGHT
}

/// The length of the scroll bar's track for a table of `height` rows.
pub fn scroll_extent(height: usize) -> (extent: usize)
    requires
        height > 0,
        (height - 1) * ITEM_HEIGHT <= usize::MAX,
    ensures
        extent == (height - 1) * ITEM_HEIGHT,
{
    (height - 1) * ITEM_HEIGHT
}

/// Moving down and then up comes back to the row that was selected, and so
/// does moving up and then down.
pub proof fn lemma_down_and_up(row: usize, height: usize)
    requires
        row < height,
    ensures
        row_above(Some(row_below(Some(row), height) as usize), height) == row,
        row_below(Some(row_above(Some(row), height) as usize), height) == row,
{
}

/// The number of terminal columns that a text takes, as the `unicode-width`
/// crate measures it.
pub uninterp spec fn text_width(text: Seq<char>) -> nat;

/// Calls `unicode_width::UnicodeWidthStr::width`.
///
/// The contract claims that the width depends on the characters alone.
#[verifier::external_body]
fn display_width(text: &str) -> (width: usize)
    ensures
        width == text_width(text@),
{
    unicode_width::UnicodeWidthStr::width(text)
}

/// The width of the widest of the cells that hold a text, or `None` where no
/// cell holds one.
pub open spec fn widest(cells: Seq<Option<String>>) -> Option<nat>
    decreases cells.len(),
{
    if cells.len() == 0 {
        None
    } else {
        let before = widest(cells.drop_last());
        match cells.last() {
            Some(text) => match before {
                Some(w) => if text_width(text@) > w {
                    Some(text_width(text@))
                } else {
                    Some(w)
                },
                None => Some(text_width(text@)),
            },
            None => before,
        }
    }
}

/// The width that a column is drawn with, before it is cut to 16 bits: the
/// widest of its cells, or the default where no cell holds a text, but no
/// less than the length of its name in bytes, and the padding.
pub open spec fn padded_width(name: &str, cells: Seq<Option<String>>) -> nat {
    let cell_width = match widest(cells) {
        Some(w) => w,
        None => DEFAULT_WIDTH as nat,
    };
    let name_width = name.len() as nat;
    (if cell_width >= name_width {
        cell_width
    } else {
        name_width
    }) + PADDING as nat
}

/// The width that a column is drawn with: the padded width, of which the low 16 bits are kept.
pub fn column_width(name: &str, cells: &[Option<String>]) -> (width: u16)
    ensures
        width == padded_width(name, cells@) % 0x10000,
{
    let mut best: Option<usize> = None;
    let mut i: usize = 0;
    while i < cells.len()
        invariant
            i <= cells.len(),
            match widest(cells@.take(i as int)) {
                Some(w) => best == Some(w as usize) && w <= usize::MAX,
                None => best is None,
            },
        decreases cells.len() - i,
    {
        assert(cells@.take(i + 1).drop_last() =~= cells@.take(i as int));
        match &cells[i] {
            Some(text) => {
                let w = display_width(text.as_str());
                best = match best {
                    Some(b) => if w > b {
                        Some(w)
                    } else {
                        Some(b)
                    },
                    None => Some(w),
                };
            },
            None => {},
        }
        i = i + 1;
    }
    assert(cells@.take(i as int) =~= cells@);
    let cell_width = match best {
        Some(w) => w,
        None => DEFAULT_WIDTH,
    };
    let name_width = name.len();
    let wide = if cell_width >= name_width {
        cell_width
    } else {
        name_width
    };
    // only the low 16 bits are kept, so the sum is formed on them
    let low = wide % 0x10000;
    proof {
        assert(cell_width as nat == match widest(cells@) {
            Some(w) => w,
            None => DEFAULT_WIDTH as nat,
        });
        vstd::arithmetic::div_mod::lemma_add_mod_noop(wide as int, PADDING as int, 0x10000);
    }
    ((low + PADDING) % 0x10000) as u16
}

/// How the width of a column is fixed when the table is laid out.
#[derive(Clone, Copy, Debug, PartialEq, Eq, Structural)]
pub enum ColumnConstraint {
    /// Exactly this many terminal columns.
    Length(u16),
    /// At least this many terminal columns.
    Min(u16),
}

/// The constraint of the column at `index` with the given width: one column
/// more than the width, exactly for the first column and at least for the others.
pub open spec fn constraint_of(index: int, width: u16) -> ColumnConstraint {
    if index == 0 {
        ColumnConstraint::Length((width + 1) as u16)
    } else {
        ColumnConstraint::Min((width + 1) as u16)
    }
}

/// The constraints of the columns with the given widths.
pub fn column_constraints(widths: &[u16]) -> (constraints: Vec<ColumnConstraint>)
    requires
        forall|i: int| 0 <= i < widths.len() ==> widths[i] < u16::MAX,
    ensures
        constraints.len() == widths.len(),
        forall|i: int|
            0 <= i < widths.len() ==> #[trigger] constraints[i] == constraint_of(i, widths[i]),
{
    let mut constraints: Vec<ColumnConstraint> = Vec::new();
    let mut i: usize = 0;
    while i < widths.len()
        invariant
            i <= widths.len(),
            constraints.len() == i,
            forall|j: int| 0 <= j < widths.len() ==> widths[j] < u16::MAX,
            forall|j: int| 0 <= j < i ==> #[trigger] constraints[j] == constraint_of(j, widths[j]),
        decreases widths.len() - i,
    {
        let width = widths[i];
        if i == 0 {
            constraints.push(ColumnConstraint::Length(width + 1));
        } else {
            constraints.push(ColumnConstraint::Min(width + 1));
        }
        i = i + 1;
    }
    constraints
}

/// The background of the row at `index`: rows take the normal and the
/// alternate colour in turn, starting with the normal one.
pub fn row_background(index: usize, colors: &TableColors) -> (color: Color)
    ensures
        color == if index % 2 == 0 {
            colors.normal_row_color
        } else {
            colors.alt_row_color
        },
{
    if index % 2 == 0 {
        colors.normal_row_color
    } else {
        colors.alt_row_color
    }
}

/// The share of an area, in percent, that is left free on each side of a
/// part that takes `percent` of it and stands in the middle.
pub fn centering_margin(percent: u16) -> (margin: u16)
    requires
        percent <= 100,
    ensures
        margin == (100 - percent) / 2,
{
    (100 - percent) / 2
}

/// A key of the keyboard, as far as the table view tells keys apart.
#[derive(Clone, Copy, Debug, PartialEq, Eq, Structural)]
pub enum Key {
    Char(char),
    Esc,
    Down,
    Up,
    Right,
    Left,
    Other,
}

/// What a key press asks the table view to do.
#[derive(Clone, Copy, Debug, PartialEq, Eq, Structural)]
pub enum Command {
    Quit,
    NextRow,
    PreviousRow,
    NextColumn,
    PreviousColumn,
    ToggleSummary,
}

/// The command that a key stands for, if it stands for one.
pub open spec fn command_of(key: Key) -> Option<Command> {
    match key {
        Key::Char(c) => if c == 'q' {
            Some(Command::Quit)
        } else if c == 'j' {
            Some(Command::NextRow)
        } else if c == 'k' {
            Some(Command::PreviousRow)
        } else if c == 'l' {
            Some(Command::NextColumn)
        } else if c == 'h' {
            Some(Command::PreviousColumn)
        } else if c == ' ' {
            Some(Command::ToggleSummary)
        } else {
            None
        },
        Key::Esc => Some(Command::Quit),
        Key::Down => Some(Command::NextRow),
        Key::Up => Some(Command::PreviousRow),
        Key::Right => Some(Command::NextColumn),
        Key::Left => Some(Command::PreviousColumn),
        Key::Other => None,
    }
}

/// The command of a key event: that of the key where the key was pressed,
/// and none where it was released or repeated.
pub fn command_for(key: Key, pressed: bool) -> (command: Option<Command>)
    ensures
        command == if pressed {
            command_of(key)
        } else {
            None
        },
{
    if !pressed {
        return None;
    }
    match key {
        Key::Char(c) => {
            if c == 'q' {
                Some(Command::Quit)
            } else if c == 'j' {
                Some(Command::NextRow)
            } else if c == 'k' {
                Some(Command::PreviousRow)
            } else if c == 'l' {
                Some(Command::NextColumn)
            } else if c == 'h' {
                Some(Command::PreviousColumn)
            } else if c == ' ' {
                Some(Command::ToggleSummary)
            } else {
                None
            }
        },
        Key::Esc => Some(Command::Quit),
        Key::Down => Some(Command::NextRow),
        Key::Up => Some(Command::PreviousRow),
        Key::Right => Some(Command::NextColumn),
        Key::Left => Some(Command::PreviousColumn),
        Key::Other => None,
    }
}

} // verus!
