//! Screen coordinates, terminal size and the fixed chrome of the viewport.
//!
//! The chrome reserves a gutter of `MARGIN` cells on the left for line
//! numbers, `HEADER` rows above the content and `FOOTER` rows below it (the
//! status line). Content rows are the screen rows `HEADER ..= height - FOOTER - 1`;
//! text columns are the screen columns `MARGIN ..= width - 1`.

use vstd::prelude::*;

verus! {

/// Width in cells of the line-number gutter on the left of the screen.
pub const MARGIN: u16 = 4;

/// Number of chrome rows above the first content row.
pub const HEADER: u16 = 0;

/// Number of chrome rows below the last content row.
pub const FOOTER: u16 = 1;

/// An integer coordinate saturated to the largest screen cell index, so
/// that positions far outside the grid stay representable instead of
/// overflowing.
pub open spec fn sat_u16(v: int) -> int {
    if v < u16::MAX as int {
        v
    } else {
        u16::MAX as int
    }
}

/// A screen cell: `x` is the terminal column, `y` the terminal row, both
/// starting at zero in the top-left corner.
#[derive(Clone, Copy, Debug, PartialEq, Eq, Structural)]
pub struct Position {
    pub x: u16,
    pub y: u16,
}

/// A terminal size in cells.
#[derive(Clone, Copy, Debug, PartialEq, Eq, Structural)]
pub struct Size {
    pub width: u16,
    pub height: u16,
}

/// A usable terminal: at least one text column right of the gutter and at
/// least one content row between header and footer.
pub open spec fn size_wf(size: Size) -> bool {
    &&& size.width > MARGIN
    &&& size.height > HEADER + FOOTER
}

/// The caret may only rest on a content row, right of the gutter.
pub open spec fn position_in_content(pos: Position, size: Size) -> bool {
    &&& MARGIN <= pos.x
    &&& HEADER <= pos.y <= size.height - FOOTER - 1
}

} // verus!
