//! The caret: the current screen position of the insertion cursor, with the
//! primitive row/column moves the controller builds on.
//!
//! Each move is a pure transition of `(position, scroll_offset)`. Row moves
//! obey row priority: the caret moves within the content rows first and the
//! viewport scrolls only when the caret is already at the top or bottom
//! content row, so scrolling substitutes for vertical caret motion at the
//! viewport's edges.

use vstd::prelude::*;
use crate::geometry::{Position, Size, MARGIN, HEADER, FOOTER, size_wf, position_in_content};

verus! {

/// Where a line break sends the caret: the start of the next content row,
/// or of the current one when it is already the bottom content row.
pub open spec fn spec_next_line(p: Position, size: Size) -> Position {
    Position {
        x: MARGIN,
        y: if p.y + 1 <= size.height - FOOTER - 1 {
            (p.y + 1) as u16
        } else {
            p.y
        },
    }
}

/// The insertion cursor's screen cell.
#[derive(Clone, Copy, Debug, PartialEq, Eq, Structural)]
pub struct Caret {
    pub position: Position,
}

impl Caret {
    /// A caret resting on the first content cell.
    pub fn new() -> (c: Caret)
        ensures
            c.position == (Position { x: MARGIN, y: HEADER }),
    {
        Caret { position: Position { x: MARGIN, y: HEADER } }
    }

    pub fn get_position(&self) -> (p: Position)
        ensures
            p == self.position,
    {
        self.position
    }

    /// Place the caret on the given cell.
    pub fn move_to(&mut self, pos: Position)
        ensures
            final(self).position == pos,
    {
        self.position = pos;
    }

    /// One cell left within the line; at the gutter edge the caret stays
    /// (line switching is the controller's business). The scroll offset is
    /// never changed by a within-line column move.
    pub fn move_left(&mut self, scroll_offset: usize) -> (r: usize)
        ensures
            r == scroll_offset,
            final(self).position.y == old(self).position.y,
            final(self).position.x == if old(self).position.x > MARGIN {
                old(self).position.x - 1
            } else {
                old(self).position.x as int
            },
    {
        if self.position.x > MARGIN {
            self.position.x = self.position.x - 1;
        }
        scroll_offset
    }

    /// One cell right within the line. The caller guards against running
    /// past the line content and the terminal edge.
    pub fn move_right(&mut self, scroll_offset: usize) -> (r: usize)
        requires
            old(self).position.x < u16::MAX,
        ensures
            r == scroll_offset,
            final(self).position.y == old(self).position.y,
            final(self).position.x == old(self).position.x + 1,
    {
        self.position.x = self.position.x + 1;
        scroll_offset
    }

    /// One row up; at the top content row the viewport scrolls up instead,
    /// if it can.
    pub fn move_up(&mut self, scroll_offset: usize) -> (r: usize)
        ensures
            final(self).position.x == old(self).position.x,
            final(self).position.y == if old(self).position.y > HEADER {
                (old(self).position.y - 1) as u16
            } else {
                old(self).position.y
            },
            r == if old(self).position.y > HEADER {
                scroll_offset as int
            } else if scroll_offset > 0 {
                scroll_offset - 1
            } else {
                scroll_offset as int
            },
    {
        if self.position.y > HEADER {
            self.position.y = self.position.y - 1;
            scroll_offset
        } else if scroll_offset > 0 {
            scroll_offset - 1
        } else {
            scroll_offset
        }
    }

    /// One row down, but never past the last buffer line; at the bottom
    /// content row the viewport scrolls down instead.
    pub fn move_down(&mut self, scroll_offset: usize, line_count: usize, size: Size)
        -> (r: usize)
        requires
            size_wf(size),
            HEADER <= old(self).position.y,
            scroll_offset < line_count,
            line_count + 65536 <= usize::MAX,
        ensures
            final(self).position.x == old(self).position.x,
            ({
                let idx = scroll_offset + (old(self).position.y - HEADER);
                if idx + 1 < line_count {
                    if old(self).position.y < size.height - FOOTER - 1 {
                        &&& final(self).position.y == old(self).position.y + 1
                        &&& r == scroll_offset
                    } else {
                        &&& final(self).position.y == old(self).position.y
                        &&& r == scroll_offset + 1
                    }
                } else {
                    &&& final(self).position.y == old(self).position.y
                    &&& r == scroll_offset
                }
            }),
    {
        let idx = scroll_offset + ((self.position.y - HEADER) as usize);
        if idx + 1 < line_count {
            if self.position.y < size.height - FOOTER - 1 {
                self.position.y = self.position.y + 1;
                scroll_offset
            } else {
                scroll_offset + 1
            }
        } else {
            scroll_offset
        }
    }

    /// Jump to the header row, preserving the column; the viewport jumps to
    /// the top of the buffer (the returned scroll offset is zero).
    pub fn move_top(&mut self) -> (r: usize)
        ensures
            final(self).position.x == old(self).position.x,
            final(self).position.y == HEADER,
            r == 0,
    {
        self.position.y = HEADER;
        0
    }

    /// Jump to the bottom content row, preserving the column.
    pub fn move_bottom(&mut self, size: Size)
        requires
            size_wf(size),
        ensures
            final(self).position.x == old(self).position.x,
            final(self).position.y == size.height - FOOTER - 1,
    {
        self.position.y = size.height - FOOTER - 1;
    }

    /// Jump to column zero of the current line (the first cell right of the
    /// gutter), row unchanged.
    pub fn move_max_left(&mut self)
        ensures
            final(self).position.x == MARGIN,
            final(self).position.y == old(self).position.y,
    {
        self.position.x = MARGIN;
    }

    /// Jump to the last terminal column, row unchanged. The controller uses
    /// this only when no buffer line lies under the caret; otherwise it caps
    /// the jump at the line's content length.
    pub fn move_max_right(&mut self, size: Size)
        requires
            size_wf(size),
        ensures
            final(self).position.x == size.width - 1,
            final(self).position.y == old(self).position.y,
    {
        self.position.x = size.width - 1;
    }

    /// Start of the next content row, or of the current one when the caret
    /// is already on the bottom content row.
    pub fn next_line(&mut self, size: Size)
        requires
            size_wf(size),
            position_in_content(old(self).position, size),
        ensures
            position_in_content(final(self).position, size),
            final(self).position == spec_next_line(old(self).position, size),
    {
        self.position.x = MARGIN;
        if self.position.y + 1 <= size.height - FOOTER - 1 {
            self.position.y = self.position.y + 1;
        }
    }
}

} // verus!
