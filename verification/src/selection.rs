//! Logical text positions and the selection range.

use vstd::prelude::*;

verus! {

/// A logical insertion point in the buffer: `line < line_count` and
/// `column <= length of that line`. The column counts characters, not bytes,
/// and may equal the line length (the caret sits after the last character).
#[derive(Clone, Copy, Debug, PartialEq, Eq, Structural)]
pub struct TextPosition {
    pub line: usize,
    pub column: usize,
}

/// Lexicographic order on `(line, column)`.
pub open spec fn pos_le(a: TextPosition, b: TextPosition) -> bool {
    a.line < b.line || (a.line == b.line && a.column <= b.column)
}

/// `p` is a valid insertion point for the given buffer lines.
pub open spec fn pos_valid(lines: Seq<Seq<char>>, p: TextPosition) -> bool {
    &&& (p.line as int) < lines.len()
    &&& p.column <= lines[p.line as int].len()
}

/// A selection: `anchor` is the fixed end set when the selection began,
/// `cursor` the moving end. The selected range is the half-open interval
/// between the two under lexicographic order; it is empty exactly when
/// `anchor == cursor`.
#[derive(Clone, Copy, Debug, PartialEq, Eq, Structural)]
pub struct Selection {
    pub anchor: TextPosition,
    pub cursor: TextPosition,
}

impl Selection {
    /// A fresh, collapsed selection at `pos`.
    pub fn new(pos: TextPosition) -> (s: Selection)
        ensures
            s.anchor == pos,
            s.cursor == pos,
    {
        Selection { anchor: pos, cursor: pos }
    }

    /// A selection highlights something exactly when its ends differ.
    pub fn is_active(&self) -> (r: bool)
        ensures
            r == (self.anchor != self.cursor),
    {
        self.anchor != self.cursor
    }

    /// Move the selection's moving end; the anchor stays put.
    pub fn update_cursor(&mut self, pos: TextPosition)
        ensures
            final(self).anchor == old(self).anchor,
            final(self).cursor == pos,
    {
        self.cursor = pos;
    }

    /// The normalized range `(start, end)`: start is the lexicographically
    /// smaller of the two ends, end the larger, so the selected interval is
    /// always `[start, end)` regardless of the direction of the drag.
    pub fn normalized(&self) -> (r: (TextPosition, TextPosition))
        ensures
            pos_le(r.0, r.1),
            r == (self.anchor, self.cursor) || r == (self.cursor, self.anchor),
            pos_le(self.anchor, self.cursor) ==> r == (self.anchor, self.cursor),
            !pos_le(self.anchor, self.cursor) ==> r == (self.cursor, self.anchor),
    {
        if self.anchor.line < self.cursor.line || (self.anchor.line == self.cursor.line
            && self.anchor.column <= self.cursor.column) {
            (self.anchor, self.cursor)
        } else {
            (self.cursor, self.anchor)
        }
    }
}

} // verus!
