//! The coordinate mapper: pure conversions between screen cells and logical
//! buffer positions, given the scroll offset and the fixed chrome.
//!
//! `screen_to_text` is total: any screen cell, even one past the last line or
//! past the end of a line, resolves by clamping to a valid text position.
//! `text_to_screen` applies the inverse formula without clamping to the
//! visible window; callers that need the result on-screen must pick a scroll
//! offset that places the position in view.

use vstd::prelude::*;
use crate::buffer::{Buffer, buffer_wf, spec_line_len};
use crate::geometry::{Position, MARGIN, HEADER};
use crate::selection::{TextPosition, pos_valid};

verus! {

/// The line a screen row denotes before clamping: rows above the header map
/// to the first visible line.
pub open spec fn spec_raw_line(y: int, scroll: int) -> int {
    scroll + if y > HEADER as int {
        y - HEADER as int
    } else {
        0
    }
}

/// The column a screen cell denotes before clamping: cells in the gutter map
/// to column zero.
pub open spec fn spec_raw_column(x: int) -> int {
    if x > MARGIN as int {
        x - MARGIN as int
    } else {
        0
    }
}

/// What `screen_to_text` returns: the raw line clamped to the buffer, then
/// the raw column clamped to that line's length.
pub open spec fn spec_screen_to_text(lines: Seq<Seq<char>>, x: int, y: int, scroll: int)
    -> TextPosition
    recommends
        lines.len() >= 1,
{
    let line = if spec_raw_line(y, scroll) < lines.len() - 1 {
        spec_raw_line(y, scroll)
    } else {
        lines.len() - 1
    };
    let len = spec_line_len(lines, line);
    let column = if spec_raw_column(x) < len {
        spec_raw_column(x)
    } else {
        len
    };
    TextPosition { line: line as usize, column: column as usize }
}

/// The screen row of a text position under the given scroll offset, as a
/// mathematical integer (no clamping, no saturation).
pub open spec fn spec_text_to_screen_y(p: TextPosition, scroll: int) -> int {
    HEADER as int + p.line - scroll
}

/// The screen column of a text position (no clamping, no saturation).
pub open spec fn spec_text_to_screen_x(p: TextPosition) -> int {
    MARGIN as int + p.column
}

/// Map a screen cell to the text position it denotes. Total: clicks in the
/// gutter, above the header, past the last line or past the end of a line
/// all clamp to the nearest valid position; no input is an error.
pub fn screen_to_text(buffer: &Buffer, x: u16, y: u16, scroll_offset: usize)
    -> (p: TextPosition)
    requires
        buffer.wf(),
        scroll_offset < buffer.view_lines().len(),
    ensures
        p == spec_screen_to_text(buffer.view_lines(), x as int, y as int, scroll_offset as int),
        pos_valid(buffer.view_lines(), p),
        scroll_offset <= p.line,
        p.line - scroll_offset <= spec_raw_line(y as int, scroll_offset as int) - scroll_offset,
        p.column <= spec_raw_column(x as int),
{
    let line_count = buffer.line_count();
    let dy: usize = if y > HEADER {
        (y - HEADER) as usize
    } else {
        0
    };
    let raw_line = scroll_offset + dy;
    let line = if raw_line < line_count - 1 {
        raw_line
    } else {
        line_count - 1
    };
    let len = buffer.line_len(line);
    let raw_column: usize = if x > MARGIN {
        (x - MARGIN) as usize
    } else {
        0
    };
    let column = if raw_column < len {
        raw_column
    } else {
        len
    };
    TextPosition { line, column }
}

/// Map a text position back to its screen cell under the given scroll
/// offset. The position must not lie above the first visible line; both
/// coordinates saturate at the largest cell index rather than overflow when
/// the position lies far outside the grid.
pub fn text_to_screen(position: TextPosition, scroll_offset: usize) -> (r: Position)
    requires
        scroll_offset <= position.line,
    ensures
        r.x == crate::geometry::sat_u16(spec_text_to_screen_x(position)),
        r.y == crate::geometry::sat_u16(spec_text_to_screen_y(position, scroll_offset as int)),
{
    let dl = position.line - scroll_offset;
    let y: u16 = if dl < (u16::MAX - HEADER) as usize {
        HEADER + dl as u16
    } else {
        u16::MAX
    };
    let x: u16 = if position.column < (u16::MAX - MARGIN) as usize {
        MARGIN + position.column as u16
    } else {
        u16::MAX
    };
    Position { x, y }
}

/// Round trip: a valid text position, sent to the screen under any scroll
/// offset that places it at or below the first visible line, maps back to
/// itself. Clamping in `spec_screen_to_text` never fires on such an input.
pub proof fn lemma_screen_text_round_trip(
    lines: Seq<Seq<char>>,
    p: TextPosition,
    scroll: int,
)
    requires
        buffer_wf(lines),
        pos_valid(lines, p),
        0 <= scroll <= p.line,
    ensures
        spec_screen_to_text(
            lines,
            spec_text_to_screen_x(p),
            spec_text_to_screen_y(p, scroll),
            scroll,
        ) == p,
{
    assert(spec_raw_line(spec_text_to_screen_y(p, scroll), scroll) == p.line as int);
    assert(spec_raw_column(spec_text_to_screen_x(p)) == p.column as int);
}

/// Every line of the model fits in a machine word, as every line read out of
/// a real `Vec` does.
pub open spec fn lines_fit_usize(lines: Seq<Seq<char>>) -> bool {
    &&& lines.len() <= usize::MAX
    &&& forall|i: int| 0 <= i < lines.len() ==> (#[trigger] lines[i].len()) <= usize::MAX
}

/// Clamp totality: whatever screen cell and scroll offset are given, the
/// mapped position has a line inside the buffer and a column no greater than
/// that line's length.
pub proof fn lemma_screen_to_text_total(lines: Seq<Seq<char>>, x: int, y: int, scroll: int)
    requires
        lines.len() >= 1,
        lines_fit_usize(lines),
        scroll >= 0,
    ensures
        pos_valid(lines, spec_screen_to_text(lines, x, y, scroll)),
{
}

} // verus!
