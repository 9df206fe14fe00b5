//! The mouse side of the selection state machine: press, drag, release,
//! and the double- and triple-click selections.

use vstd::prelude::*;
use crate::caret::Caret;
use crate::geometry::{Position, sat_u16};
use crate::mapper::{
    screen_to_text, spec_screen_to_text, spec_text_to_screen_x, spec_text_to_screen_y,
    text_to_screen,
};
use crate::selection::{Selection, TextPosition};
use crate::viewport::Viewport;

verus! {

/// Whether the character counts as alphanumeric under Unicode; named so the
/// word-boundary contracts can speak of it without restating the Unicode
/// tables.
pub uninterp spec fn is_unicode_alphanumeric(c: char) -> bool;

/// Relies on char::is_alphanumeric: the result depends on the character
/// alone.
#[verifier::external_body]
fn char_is_alphanumeric(c: char) -> (r: bool)
    ensures
        r == is_unicode_alphanumeric(c),
{
    c.is_alphanumeric()
}

/// Word characters for double-click selection: alphanumerics and the
/// underscore.
pub open spec fn is_word_char(c: char) -> bool {
    is_unicode_alphanumeric(c) || c == '_'
}

fn word_char(c: char) -> (r: bool)
    ensures
        r == is_word_char(c),
{
    char_is_alphanumeric(c) || c == '_'
}

/// The start of the word around `col`: the leftmost position reachable from
/// `col` walking over word characters.
pub open spec fn spec_word_start(chars: Seq<char>, col: int) -> int
    decreases col,
{
    if col <= 0 {
        0
    } else if is_word_char(chars[col - 1]) {
        spec_word_start(chars, col - 1)
    } else {
        col
    }
}

/// The end of the word around `col`: the position after the rightmost word
/// character reachable from `col`.
pub open spec fn spec_word_end(chars: Seq<char>, col: int) -> int
    decreases chars.len() - col,
{
    if col < 0 || col >= chars.len() {
        chars.len() as int
    } else if is_word_char(chars[col]) {
        spec_word_end(chars, col + 1)
    } else {
        col
    }
}

/// What a double click at `col` selects: the word around a word character;
/// exactly the one character under a non-word character; the empty range
/// `(col, col)` past the end of the line.
pub open spec fn spec_word_bounds(chars: Seq<char>, col: int) -> (int, int) {
    if col >= chars.len() {
        (col, col)
    } else if !is_word_char(chars[col]) {
        (col, col + 1)
    } else {
        (spec_word_start(chars, col), spec_word_end(chars, col))
    }
}

proof fn lemma_word_start_props(chars: Seq<char>, col: int)
    requires
        0 <= col <= chars.len(),
    ensures
        0 <= spec_word_start(chars, col) <= col,
        forall|j: int|
            spec_word_start(chars, col) <= j < col ==> is_word_char(#[trigger] chars[j]),
        spec_word_start(chars, col) == 0 || !is_word_char(
            chars[spec_word_start(chars, col) - 1],
        ),
    decreases col,
{
    if col > 0 && is_word_char(chars[col - 1]) {
        lemma_word_start_props(chars, col - 1);
    }
}

proof fn lemma_word_end_props(chars: Seq<char>, col: int)
    requires
        0 <= col <= chars.len(),
    ensures
        col <= spec_word_end(chars, col) <= chars.len(),
        forall|j: int| col <= j < spec_word_end(chars, col) ==> is_word_char(#[trigger] chars[j]),
        spec_word_end(chars, col) == chars.len() || !is_word_char(
            chars[spec_word_end(chars, col)],
        ),
    decreases chars.len() - col,
{
    if col < chars.len() && is_word_char(chars[col]) {
        lemma_word_end_props(chars, col + 1);
    }
}

/// What the double-click range is made of: on a word character it is a
/// maximal run of word characters around the click column — every
/// character inside the range is a word character and the characters just
/// outside it, where they exist, are not.
pub proof fn lemma_word_bounds_maximal_run(chars: Seq<char>, col: int)
    requires
        0 <= col < chars.len(),
        is_word_char(chars[col]),
    ensures
        ({
            let (start, end) = spec_word_bounds(chars, col);
            &&& 0 <= start <= col < end <= chars.len()
            &&& forall|j: int| start <= j < end ==> is_word_char(#[trigger] chars[j])
            &&& start == 0 || !is_word_char(chars[start - 1])
            &&& end == chars.len() || !is_word_char(chars[end])
        }),
{
    lemma_word_start_props(chars, col);
    lemma_word_end_props(chars, col);
}

/// Scan left and right from the click column while the characters share the
/// word class.
pub fn find_word_boundaries(line: &Vec<char>, col: usize) -> (r: (usize, usize))
    ensures
        (r.0 as int, r.1 as int) == spec_word_bounds(line@, col as int),
{
    let chars = line;
    if col >= chars.len() {
        return (col, col);
    }
    if !word_char(chars[col]) {
        return (col, col + 1);
    }
    let mut start: usize = col;
    while start > 0 && word_char(chars[start - 1])
        invariant
            start <= col < chars.len(),
            spec_word_start(line@, col as int) == spec_word_start(line@, start as int),
            chars == line,
        decreases start,
    {
        start = start - 1;
    }
    let mut end: usize = col;
    while end < chars.len() && word_char(chars[end])
        invariant
            col <= end <= chars.len(),
            spec_word_end(line@, col as int) == spec_word_end(line@, end as int),
            chars == line,
        decreases chars.len() - end,
    {
        end = end + 1;
    }
    (start, end)
}

/// Mouse press: start a fresh, collapsed selection at the position under
/// the pointer, raise the drag flag, and move the caret there.
pub fn handle_down(viewport: &mut Viewport, screen_x: u16, screen_y: u16, caret: &mut Caret)
    requires
        old(viewport).wf(),
    ensures
        ({
            let pos = spec_screen_to_text(
                old(viewport).buffer.view_lines(),
                screen_x as int,
                screen_y as int,
                old(viewport).scroll_offset as int,
            );
            &&& final(viewport).selection == Some(Selection { anchor: pos, cursor: pos })
            &&& final(caret).position.x == sat_u16(spec_text_to_screen_x(pos))
            &&& final(caret).position.y == sat_u16(
                spec_text_to_screen_y(pos, old(viewport).scroll_offset as int),
            )
        }),
        final(viewport).is_dragging,
        final(viewport).buffer == old(viewport).buffer,
        final(viewport).scroll_offset == old(viewport).scroll_offset,
        final(viewport).wf(),
{
    let pos = screen_to_text(&viewport.buffer, screen_x, screen_y, viewport.scroll_offset);
    viewport.selection = Some(Selection::new(pos));
    viewport.is_dragging = true;
    let screen_pos = text_to_screen(pos, viewport.scroll_offset);
    caret.move_to(screen_pos);
}

/// Mouse move while dragging: the selection's moving end follows the
/// pointer, the anchor stays, and the caret tracks the pointer. Without the
/// drag flag the event is ignored.
pub fn handle_drag(viewport: &mut Viewport, screen_x: u16, screen_y: u16, caret: &mut Caret)
    requires
        old(viewport).wf(),
    ensures
        !old(viewport).is_dragging ==> {
            &&& *final(viewport) == *old(viewport)
            &&& *final(caret) == *old(caret)
        },
        old(viewport).is_dragging ==> ({
            let pos = spec_screen_to_text(
                old(viewport).buffer.view_lines(),
                screen_x as int,
                screen_y as int,
                old(viewport).scroll_offset as int,
            );
            &&& final(viewport).selection == match old(viewport).selection {
                Some(sel) => Some(Selection { anchor: sel.anchor, cursor: pos }),
                None => None,
            }
            &&& final(caret).position.x == sat_u16(spec_text_to_screen_x(pos))
            &&& final(caret).position.y == sat_u16(
                spec_text_to_screen_y(pos, old(viewport).scroll_offset as int),
            )
            &&& final(viewport).is_dragging
        }),
        final(viewport).buffer == old(viewport).buffer,
        final(viewport).scroll_offset == old(viewport).scroll_offset,
        final(viewport).wf(),
{
    if !viewport.is_dragging {
        return ;
    }
    let pos = screen_to_text(&viewport.buffer, screen_x, screen_y, viewport.scroll_offset);
    match &mut viewport.selection {
        Some(sel) => sel.update_cursor(pos),
        None => {},
    }
    let screen_pos = text_to_screen(pos, viewport.scroll_offset);
    caret.move_to(screen_pos);
}

/// Mouse release: the drag ends; a selection that collapsed to a single
/// point (a plain click) is discarded.
pub fn handle_up(viewport: &mut Viewport, _screen_x: u16, _screen_y: u16, caret: &mut Caret)
    requires
        old(viewport).wf(),
    ensures
        !final(viewport).is_dragging,
        final(viewport).selection == match old(viewport).selection {
            Some(sel) => if sel.anchor == sel.cursor {
                None::<Selection>
            } else {
                Some(sel)
            },
            None => None::<Selection>,
        },
        final(viewport).buffer == old(viewport).buffer,
        final(viewport).scroll_offset == old(viewport).scroll_offset,
        *final(caret) == *old(caret),
        final(viewport).wf(),
{
    viewport.is_dragging = false;
    let clear = match &viewport.selection {
        Some(sel) => !sel.is_active(),
        None => false,
    };
    if clear {
        viewport.selection = None;
    }
}

/// Double click: select the word around the position under the pointer and
/// put the caret at the selection's end.
pub fn handle_double_click(viewport: &mut Viewport, screen_x: u16, screen_y: u16, caret: &mut Caret)
    requires
        old(viewport).wf(),
    ensures
        ({
            let lines = old(viewport).buffer.view_lines();
            let pos = spec_screen_to_text(
                lines,
                screen_x as int,
                screen_y as int,
                old(viewport).scroll_offset as int,
            );
            let bounds = spec_word_bounds(lines[pos.line as int], pos.column as int);
            let cursor = TextPosition { line: pos.line, column: bounds.1 as usize };
            &&& final(viewport).selection == Some(
                Selection {
                    anchor: TextPosition { line: pos.line, column: bounds.0 as usize },
                    cursor: cursor,
                },
            )
            &&& final(caret).position.x == sat_u16(spec_text_to_screen_x(cursor))
            &&& final(caret).position.y == sat_u16(
                spec_text_to_screen_y(cursor, old(viewport).scroll_offset as int),
            )
        }),
        final(viewport).buffer == old(viewport).buffer,
        final(viewport).scroll_offset == old(viewport).scroll_offset,
        final(viewport).is_dragging == old(viewport).is_dragging,
        final(viewport).wf(),
{
    let pos = screen_to_text(&viewport.buffer, screen_x, screen_y, viewport.scroll_offset);
    let (start, end) = find_word_boundaries(&viewport.buffer.lines[pos.line], pos.column);
    let start_pos = TextPosition { line: pos.line, column: start };
    let end_pos = TextPosition { line: pos.line, column: end };
    viewport.selection = Some(Selection { anchor: start_pos, cursor: end_pos });
    let screen_pos = text_to_screen(end_pos, viewport.scroll_offset);
    caret.move_to(screen_pos);
}

/// Triple click: select the whole line under the pointer, anchor at column
/// zero, cursor after its last character, caret at the selection's end.
pub fn handle_triple_click(viewport: &mut Viewport, screen_x: u16, screen_y: u16, caret: &mut Caret)
    requires
        old(viewport).wf(),
    ensures
        ({
            let lines = old(viewport).buffer.view_lines();
            let pos = spec_screen_to_text(
                lines,
                screen_x as int,
                screen_y as int,
                old(viewport).scroll_offset as int,
            );
            let cursor = TextPosition {
                line: pos.line,
                column: lines[pos.line as int].len() as usize,
            };
            &&& final(viewport).selection == Some(
                Selection { anchor: TextPosition { line: pos.line, column: 0 }, cursor: cursor },
            )
            &&& final(caret).position.x == sat_u16(spec_text_to_screen_x(cursor))
            &&& final(caret).position.y == sat_u16(
                spec_text_to_screen_y(cursor, old(viewport).scroll_offset as int),
            )
        }),
        final(viewport).buffer == old(viewport).buffer,
        final(viewport).scroll_offset == old(viewport).scroll_offset,
        final(viewport).is_dragging == old(viewport).is_dragging,
        final(viewport).wf(),
{
    let pos = screen_to_text(&viewport.buffer, screen_x, screen_y, viewport.scroll_offset);
    let line_len = viewport.buffer.lines[pos.line].len();
    let start_pos = TextPosition { line: pos.line, column: 0 };
    let end_pos = TextPosition { line: pos.line, column: line_len };
    viewport.selection = Some(Selection { anchor: start_pos, cursor: end_pos });
    let screen_pos = text_to_screen(end_pos, viewport.scroll_offset);
    caret.move_to(screen_pos);
}

} // verus!
