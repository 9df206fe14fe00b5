//! The caret/scroll controller: the viewport state and the pure transition
//! it makes for each directional command.
//!
//! Every transition is specified by a function over a mathematical model of
//! the moving parts — caret column, caret row, scroll offset — and the
//! executable controller is proved to compute exactly that function. Out of
//! range requests (moving up from the first line, right past the last) are
//! resolved by staying put or clamping, never by failing.

use vstd::prelude::*;
use crate::actions::Action;
use crate::buffer::{Buffer, buffer_wf, spec_line_len, spec_last_nonempty};
use crate::caret::Caret;
use crate::geometry::{Position, Size, MARGIN, HEADER, FOOTER, sat_u16, size_wf, position_in_content};
use crate::mapper::{screen_to_text, spec_screen_to_text};
use crate::selection::{Selection, TextPosition};

verus! {

/// The mathematical model of the moving parts of the viewport: the caret's
/// screen cell and the index of the first visible buffer line.
pub struct MoveState {
    pub x: int,
    pub y: int,
    pub scroll: int,
}

/// The viewport: the buffer under display, the scroll offset, and the
/// optional active selection with its mouse-drag flag.
pub struct Viewport {
    pub buffer: Buffer,
    pub scroll_offset: usize,
    pub selection: Option<Selection>,
    pub is_dragging: bool,
}

/// The model of a caret/scroll pair.
pub open spec fn caret_model(caret: Caret, scroll: usize) -> MoveState {
    MoveState { x: caret.position.x as int, y: caret.position.y as int, scroll: scroll as int }
}

/// A model state the controller maintains: caret right of the gutter, on a
/// content row, scroll offset inside the buffer.
pub open spec fn state_wf(lines: Seq<Seq<char>>, s: MoveState, h: int) -> bool {
    &&& MARGIN as int <= s.x <= u16::MAX as int
    &&& HEADER as int <= s.y <= h - FOOTER - 1
    &&& 0 <= s.scroll < lines.len()
}

/// The buffer line the caret rests on.
pub open spec fn line_index(s: MoveState) -> int {
    s.scroll + (s.y - HEADER as int)
}

/// Clamp the caret column to the length of the line it rests on, so that
/// moving to a shorter line truncates the column rather than erring.
pub open spec fn clamp_to_line(lines: Seq<Seq<char>>, s: MoveState) -> MoveState {
    let limit = sat_u16(MARGIN as int + spec_line_len(lines, line_index(s)));
    MoveState { x: if s.x < limit { s.x } else { limit }, y: s.y, scroll: s.scroll }
}

/// Left: within a line the column decrements. At column zero the caret
/// jumps to the end of the previous line; when that line is off-screen
/// (caret on the header row), the viewport scrolls up one line instead and
/// the caret row stays fixed — scrolling substitutes for vertical motion at
/// the top edge. On the first line, nothing moves.
pub open spec fn step_left(lines: Seq<Seq<char>>, s: MoveState) -> MoveState {
    let idx = line_index(s);
    if s.x <= MARGIN as int && idx > 0 {
        let target = sat_u16(MARGIN as int + spec_line_len(lines, idx - 1));
        if s.y > HEADER as int {
            MoveState { x: target, y: s.y - 1, scroll: s.scroll }
        } else if s.scroll > 0 {
            MoveState { x: target, y: s.y, scroll: s.scroll - 1 }
        } else {
            s
        }
    } else if s.x > MARGIN as int {
        MoveState { x: s.x - 1, y: s.y, scroll: s.scroll }
    } else {
        s
    }
}

/// Right: within the line content (and short of the terminal edge) the
/// column increments. At the end of a line the caret jumps to the start of
/// the next line, scrolling down instead of leaving the bottom content row.
pub open spec fn step_right(lines: Seq<Seq<char>>, s: MoveState, w: int, h: int) -> MoveState {
    let idx = line_index(s);
    if 0 <= idx < lines.len() {
        let len = spec_line_len(lines, idx);
        if s.x < MARGIN as int + len && s.x < w - 1 {
            MoveState { x: s.x + 1, y: s.y, scroll: s.scroll }
        } else if s.x - MARGIN as int >= len && idx + 1 < lines.len() {
            if s.y < h - FOOTER as int - 1 {
                MoveState { x: MARGIN as int, y: s.y + 1, scroll: s.scroll }
            } else {
                MoveState { x: MARGIN as int, y: s.y, scroll: s.scroll + 1 }
            }
        } else {
            s
        }
    } else {
        s
    }
}

/// Up: the caret row moves first; only at the top content row does the
/// viewport scroll. The column is then clamped to the target line.
pub open spec fn step_up(lines: Seq<Seq<char>>, s: MoveState) -> MoveState {
    let moved = if s.y > HEADER as int {
        MoveState { x: s.x, y: s.y - 1, scroll: s.scroll }
    } else if s.scroll > 0 {
        MoveState { x: s.x, y: s.y, scroll: s.scroll - 1 }
    } else {
        s
    };
    clamp_to_line(lines, moved)
}

/// Down: the mirror of Up at the bottom content row, and never past the
/// last buffer line. The column is then clamped to the target line.
pub open spec fn step_down(lines: Seq<Seq<char>>, s: MoveState, h: int) -> MoveState {
    let idx = line_index(s);
    let moved = if idx + 1 < lines.len() {
        if s.y < h - FOOTER as int - 1 {
            MoveState { x: s.x, y: s.y + 1, scroll: s.scroll }
        } else {
            MoveState { x: s.x, y: s.y, scroll: s.scroll + 1 }
        }
    } else {
        s
    };
    clamp_to_line(lines, moved)
}

/// Top: scroll to the head of the buffer and put the caret on the header
/// row, preserving the column.
pub open spec fn step_top(s: MoveState) -> MoveState {
    MoveState { x: s.x, y: HEADER as int, scroll: 0 }
}

/// Bottom: scroll so the last non-empty line is in view (trailing blank
/// lines are excluded), put the caret on the bottom content row, and clamp
/// the column to the line under it.
pub open spec fn step_bottom(lines: Seq<Seq<char>>, s: MoveState, h: int) -> MoveState {
    let visible = h - HEADER as int - FOOTER as int;
    let last = spec_last_nonempty(lines);
    let scroll2 = if last >= visible {
        last - visible + 1
    } else {
        0
    };
    let moved = MoveState { x: s.x, y: h - FOOTER as int - 1, scroll: scroll2 };
    clamp_to_line(lines, moved)
}

/// MaxLeft: column zero, row and scroll unchanged.
pub open spec fn step_max_left(s: MoveState) -> MoveState {
    MoveState { x: MARGIN as int, y: s.y, scroll: s.scroll }
}

/// MaxRight: the end of the current line's content, capped by the terminal
/// width; the last terminal column when no line lies under the caret.
pub open spec fn step_max_right(lines: Seq<Seq<char>>, s: MoveState, w: int) -> MoveState {
    let idx = line_index(s);
    if 0 <= idx < lines.len() {
        let line_end = sat_u16(MARGIN as int + spec_line_len(lines, idx));
        let x2 = if line_end < w - 1 {
            line_end
        } else {
            w - 1
        };
        MoveState { x: x2, y: s.y, scroll: s.scroll }
    } else {
        MoveState { x: w - 1, y: s.y, scroll: s.scroll }
    }
}

/// The transition a directional command makes; the non-movement commands
/// leave the viewport as it is.
pub open spec fn move_step(lines: Seq<Seq<char>>, s: MoveState, a: Action, w: int, h: int)
    -> MoveState {
    match a {
        Action::Left => step_left(lines, s),
        Action::Right => step_right(lines, s, w, h),
        Action::Up => step_up(lines, s),
        Action::Down => step_down(lines, s, h),
        Action::Top => step_top(s),
        Action::Bottom => step_bottom(lines, s, h),
        Action::MaxLeft => step_max_left(s),
        Action::MaxRight => step_max_right(lines, s, w),
        _ => s,
    }
}

/// Visibility invariant: every directional transition leaves the caret's
/// row inside the content rows and the scroll offset inside the buffer.
pub proof fn lemma_move_step_keeps_state_wf(
    lines: Seq<Seq<char>>,
    s: MoveState,
    a: Action,
    w: int,
    h: int,
)
    requires
        buffer_wf(lines),
        state_wf(lines, s, h),
        w > MARGIN as int,
        h > HEADER as int + FOOTER as int,
        w <= u16::MAX as int,
        h <= u16::MAX as int,
    ensures
        state_wf(lines, move_step(lines, s, a, w, h), h),
{
    if a is Bottom {
        crate::buffer::lemma_last_nonempty_in_range(lines);
    }
}

impl Viewport {
    /// A workable viewport: a non-empty buffer and a scroll offset that
    /// points at one of its lines.
    pub open spec fn wf(&self) -> bool {
        &&& self.buffer.wf()
        &&& self.scroll_offset < self.buffer.view_lines().len()
    }

    /// A fresh viewport over the given buffer, scrolled to the top, with no
    /// selection.
    pub fn new(buffer: Buffer) -> (v: Viewport)
        requires
            buffer.wf(),
        ensures
            v.wf(),
            v.buffer == buffer,
            v.scroll_offset == 0,
            v.selection is None,
            !v.is_dragging,
    {
        Viewport { buffer, scroll_offset: 0, selection: None, is_dragging: false }
    }

    /// Clamp the caret column to the length of the line under the caret.
    pub fn clamp_cursor_to_line(&self, caret: &mut Caret)
        requires
            self.wf(),
            HEADER <= old(caret).position.y,
        ensures
            caret_model(*final(caret), self.scroll_offset) == clamp_to_line(
                self.buffer.view_lines(),
                caret_model(*old(caret), self.scroll_offset),
            ),
    {
        let pos = caret.get_position();
        let dy = (pos.y - HEADER) as usize;
        let idx_opt = self.scroll_offset.checked_add(dy);
        let len = match idx_opt {
            Some(idx) => self.buffer.line_len(idx),
            None => 0,
        };
        let limit: u16 = if len >= (u16::MAX - MARGIN) as usize {
            u16::MAX
        } else {
            MARGIN + len as u16
        };
        if pos.x > limit {
            caret.move_to(Position { x: limit, y: pos.y });
        }
    }
}

/// The logical position the caret currently denotes, resolved through the
/// coordinate mapper.
pub fn get_current_text_pos(viewport: &Viewport, caret: &Caret) -> (p: TextPosition)
    requires
        viewport.wf(),
    ensures
        p == spec_screen_to_text(
            viewport.buffer.view_lines(),
            caret.position.x as int,
            caret.position.y as int,
            viewport.scroll_offset as int,
        ),
{
    screen_to_text(&viewport.buffer, caret.position.x, caret.position.y, viewport.scroll_offset)
}

/// Execute one directional command: the caret and scroll offset move to
/// exactly the state `move_step` describes; the buffer, the selection and
/// the drag flag stay untouched.
pub fn perform_movement(viewport: &mut Viewport, direction: Action, caret: &mut Caret, size: Size)
    requires
        old(viewport).wf(),
        size_wf(size),
        position_in_content(old(caret).position, size),
    ensures
        caret_model(*final(caret), final(viewport).scroll_offset) == move_step(
            old(viewport).buffer.view_lines(),
            caret_model(*old(caret), old(viewport).scroll_offset),
            direction,
            size.width as int,
            size.height as int,
        ),
        final(viewport).buffer == old(viewport).buffer,
        final(viewport).selection == old(viewport).selection,
        final(viewport).is_dragging == old(viewport).is_dragging,
        final(viewport).wf(),
        position_in_content(final(caret).position, size),
{
    proof {
        lemma_move_step_keeps_state_wf(
            viewport.buffer.view_lines(),
            caret_model(*caret, viewport.scroll_offset),
            direction,
            size.width as int,
            size.height as int,
        );
    }
    match direction {
        Action::Left => {
            let pos = caret.get_position();
            let dy = (pos.y - HEADER) as usize;
            let idx = viewport.scroll_offset + dy;
            if pos.x <= MARGIN && idx > 0 {
                let prev_len = viewport.buffer.line_len(idx - 1);
                let target_x: u16 = if prev_len >= (u16::MAX - MARGIN) as usize {
                    u16::MAX
                } else {
                    MARGIN + prev_len as u16
                };
                if pos.y > HEADER {
                    caret.move_to(Position { x: target_x, y: pos.y - 1 });
                } else if viewport.scroll_offset > 0 {
                    viewport.scroll_offset = viewport.scroll_offset - 1;
                    caret.move_to(Position { x: target_x, y: pos.y });
                }
            } else {
                let new_offset = caret.move_left(viewport.scroll_offset);
                viewport.scroll_offset = new_offset;
            }
        },
        Action::Right => {
            let pos = caret.get_position();
            let dy = (pos.y - HEADER) as usize;
            let idx = viewport.scroll_offset + dy;
            let line_count = viewport.buffer.line_count();
            if idx < line_count {
                let len = viewport.buffer.line_len(idx);
                let col = (pos.x - MARGIN) as usize;
                if col < len && pos.x < size.width - 1 {
                    let new_offset = caret.move_right(viewport.scroll_offset);
                    viewport.scroll_offset = new_offset;
                } else if col >= len && idx + 1 < line_count {
                    if pos.y < size.height - FOOTER - 1 {
                        caret.move_to(Position { x: MARGIN, y: pos.y + 1 });
                    } else {
                        viewport.scroll_offset = viewport.scroll_offset + 1;
                        caret.move_to(Position { x: MARGIN, y: pos.y });
                    }
                }
            }
        },
        Action::Up => {
            let new_offset = caret.move_up(viewport.scroll_offset);
            viewport.scroll_offset = new_offset;
            viewport.clamp_cursor_to_line(caret);
        },
        Action::Down => {
            let new_offset = caret.move_down(
                viewport.scroll_offset,
                viewport.buffer.line_count(),
                size,
            );
            viewport.scroll_offset = new_offset;
            viewport.clamp_cursor_to_line(caret);
        },
        Action::Top => {
            let new_offset = caret.move_top();
            viewport.scroll_offset = new_offset;
        },
        Action::Bottom => {
            let visible = ((size.height - HEADER) - FOOTER) as usize;
            let last = viewport.buffer.last_nonempty_line();
            viewport.scroll_offset = if last >= visible {
                last - visible + 1
            } else {
                0
            };
            caret.move_bottom(size);
            viewport.clamp_cursor_to_line(caret);
        },
        Action::MaxLeft => {
            caret.move_max_left();
        },
        Action::MaxRight => {
            let pos = caret.get_position();
            let dy = (pos.y - HEADER) as usize;
            let idx = viewport.scroll_offset + dy;
            if idx < viewport.buffer.line_count() {
                let len = viewport.buffer.line_len(idx);
                let line_end: u16 = if len >= (u16::MAX - MARGIN) as usize {
                    u16::MAX
                } else {
                    MARGIN + len as u16
                };
                let max_x = if line_end < size.width - 1 {
                    line_end
                } else {
                    size.width - 1
                };
                caret.move_to(Position { x: max_x, y: pos.y });
            } else {
                caret.move_max_right(size);
            }
        },
        _ => {},
    }
}

/// The logical position the model state denotes, through the mapper.
pub open spec fn spec_current_text_pos(lines: Seq<Seq<char>>, s: MoveState) -> TextPosition {
    spec_screen_to_text(lines, s.x, s.y, s.scroll)
}

/// A shift-modified move extends the selection: the anchor is the logical
/// position before the move when no selection was active (and the old
/// anchor otherwise), the cursor is the logical position after it.
pub fn move_with_selection(viewport: &mut Viewport, direction: Action, caret: &mut Caret, size: Size)
    requires
        old(viewport).wf(),
        size_wf(size),
        position_in_content(old(caret).position, size),
    ensures
        caret_model(*final(caret), final(viewport).scroll_offset) == move_step(
            old(viewport).buffer.view_lines(),
            caret_model(*old(caret), old(viewport).scroll_offset),
            direction,
            size.width as int,
            size.height as int,
        ),
        final(viewport).selection == Some(
            Selection {
                anchor: if old(viewport).selection is Some {
                    old(viewport).selection->0.anchor
                } else {
                    spec_current_text_pos(
                        old(viewport).buffer.view_lines(),
                        caret_model(*old(caret), old(viewport).scroll_offset),
                    )
                },
                cursor: spec_current_text_pos(
                    old(viewport).buffer.view_lines(),
                    caret_model(*final(caret), final(viewport).scroll_offset),
                ),
            },
        ),
        final(viewport).buffer == old(viewport).buffer,
        final(viewport).is_dragging == old(viewport).is_dragging,
        final(viewport).wf(),
        position_in_content(final(caret).position, size),
{
    let current_pos = get_current_text_pos(viewport, caret);
    if viewport.selection.is_none() {
        viewport.selection = Some(Selection::new(current_pos));
    }
    perform_movement(viewport, direction, caret, size);
    let new_pos = get_current_text_pos(viewport, caret);
    match &mut viewport.selection {
        Some(sel) => sel.update_cursor(new_pos),
        None => {},
    }
}

/// An unmodified move discards any active selection before the caret
/// moves: the selection machine returns to its idle state.
pub fn move_without_selection(
    viewport: &mut Viewport,
    direction: Action,
    caret: &mut Caret,
    size: Size,
)
    requires
        old(viewport).wf(),
        size_wf(size),
        position_in_content(old(caret).position, size),
    ensures
        caret_model(*final(caret), final(viewport).scroll_offset) == move_step(
            old(viewport).buffer.view_lines(),
            caret_model(*old(caret), old(viewport).scroll_offset),
            direction,
            size.width as int,
            size.height as int,
        ),
        final(viewport).selection is None,
        final(viewport).buffer == old(viewport).buffer,
        final(viewport).is_dragging == old(viewport).is_dragging,
        final(viewport).wf(),
        position_in_content(final(caret).position, size),
{
    viewport.selection = None;
    perform_movement(viewport, direction, caret, size);
}

} // verus!
