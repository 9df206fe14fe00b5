use quick_notepad::actions::Action;
use quick_notepad::buffer::Buffer;
use quick_notepad::caret::Caret;
use quick_notepad::geometry::{Position, Size};
use quick_notepad::text::line_chars;
use quick_notepad::viewport::{perform_movement, Viewport};

fn buffer_of(lines: &[&str]) -> Buffer {
    let mut rows: Vec<Vec<char>> = Vec::new();
    for line in lines {
        rows.push(line_chars(line));
    }
    Buffer::new(rows)
}

fn session(lines: &[&str], x: u16, y: u16, scroll: usize) -> (Viewport, Caret) {
    let mut viewport = Viewport::new(buffer_of(lines));
    viewport.scroll_offset = scroll;
    let mut caret = Caret::new();
    caret.move_to(Position { x, y });
    (viewport, caret)
}

const SIZE: Size = Size { width: 80, height: 24 };

#[test]
fn test_left_within_line() {
    let (mut viewport, mut caret) = session(&["abc"], 6, 0, 0);
    perform_movement(&mut viewport, Action::Left, &mut caret, SIZE);
    assert_eq!(caret.position, Position { x: 5, y: 0 });
    assert_eq!(viewport.scroll_offset, 0);
}

#[test]
fn test_left_joins_previous_line() {
    let (mut viewport, mut caret) = session(&["abc", "d"], 4, 1, 0);
    perform_movement(&mut viewport, Action::Left, &mut caret, SIZE);
    // End of the previous line: margin plus its length.
    assert_eq!(caret.position, Position { x: 7, y: 0 });
    assert_eq!(viewport.scroll_offset, 0);
}

#[test]
fn test_scroll_substitution() {
    // On the header row at column zero with nothing scrolled off, a Left
    // move has no previous line to reach and the scroll offset stays.
    let (mut viewport, mut caret) = session(&["", "abc"], 4, 0, 0);
    perform_movement(&mut viewport, Action::Left, &mut caret, SIZE);
    assert_eq!(viewport.scroll_offset, 0);
    assert_eq!(caret.position, Position { x: 4, y: 0 });

    // With a line scrolled off above, the same move scrolls up instead of
    // moving the caret row.
    let (mut viewport, mut caret) = session(&["", "abc"], 4, 0, 1);
    perform_movement(&mut viewport, Action::Left, &mut caret, SIZE);
    assert_eq!(viewport.scroll_offset, 0);
    assert_eq!(caret.position, Position { x: 4, y: 0 });
}

#[test]
fn test_right_within_line() {
    let (mut viewport, mut caret) = session(&["abc"], 4, 0, 0);
    perform_movement(&mut viewport, Action::Right, &mut caret, SIZE);
    assert_eq!(caret.position, Position { x: 5, y: 0 });
}

#[test]
fn test_right_joins_next_line() {
    let (mut viewport, mut caret) = session(&["ab", "cd"], 6, 0, 0);
    perform_movement(&mut viewport, Action::Right, &mut caret, SIZE);
    assert_eq!(caret.position, Position { x: 4, y: 1 });
    assert_eq!(viewport.scroll_offset, 0);
}

#[test]
fn test_right_scrolls_at_bottom_row() {
    let size = Size { width: 80, height: 3 };
    let (mut viewport, mut caret) = session(&["a", "b", "c"], 5, 1, 0);
    perform_movement(&mut viewport, Action::Right, &mut caret, size);
    assert_eq!(viewport.scroll_offset, 1);
    assert_eq!(caret.position, Position { x: 4, y: 1 });
}

#[test]
fn test_right_at_end_of_buffer_stays() {
    let (mut viewport, mut caret) = session(&["ab"], 6, 0, 0);
    perform_movement(&mut viewport, Action::Right, &mut caret, SIZE);
    assert_eq!(caret.position, Position { x: 6, y: 0 });
    assert_eq!(viewport.scroll_offset, 0);
}

#[test]
fn test_down_clamps_column_to_shorter_line() {
    let (mut viewport, mut caret) = session(&["hello", "ab"], 9, 0, 0);
    perform_movement(&mut viewport, Action::Down, &mut caret, SIZE);
    assert_eq!(caret.position, Position { x: 6, y: 1 });
}

#[test]
fn test_down_stops_at_last_line() {
    let (mut viewport, mut caret) = session(&["a"], 4, 0, 0);
    perform_movement(&mut viewport, Action::Down, &mut caret, SIZE);
    assert_eq!(caret.position, Position { x: 4, y: 0 });
    assert_eq!(viewport.scroll_offset, 0);
}

#[test]
fn test_up_moves_row_first() {
    let (mut viewport, mut caret) = session(&["hello", "ab"], 6, 1, 0);
    perform_movement(&mut viewport, Action::Up, &mut caret, SIZE);
    assert_eq!(caret.position, Position { x: 6, y: 0 });
    assert_eq!(viewport.scroll_offset, 0);
}

#[test]
fn test_up_scrolls_at_header_row() {
    let (mut viewport, mut caret) = session(&["a", "b", "c"], 4, 0, 2);
    perform_movement(&mut viewport, Action::Up, &mut caret, SIZE);
    assert_eq!(viewport.scroll_offset, 1);
    assert_eq!(caret.position.y, 0);
}

#[test]
fn test_top_preserves_column() {
    let (mut viewport, mut caret) = session(&["abcdef"; 10], 8, 3, 5);
    perform_movement(&mut viewport, Action::Top, &mut caret, SIZE);
    assert_eq!(viewport.scroll_offset, 0);
    assert_eq!(caret.position, Position { x: 8, y: 0 });
}

#[test]
fn test_bottom_scrolls_to_last_nonempty_line() {
    // Three content rows; the last non-empty line (index 4) must land on
    // the bottom one, so two lines scroll off. Trailing blanks are
    // excluded from the computation.
    let size = Size { width: 80, height: 4 };
    let (mut viewport, mut caret) = session(&["a", "b", "c", "d", "e", "", ""], 4, 0, 0);
    perform_movement(&mut viewport, Action::Bottom, &mut caret, size);
    assert_eq!(viewport.scroll_offset, 2);
    assert_eq!(caret.position, Position { x: 4, y: 2 });
}

#[test]
fn test_bottom_on_short_buffer() {
    let (mut viewport, mut caret) = session(&["ab", ""], 5, 0, 0);
    perform_movement(&mut viewport, Action::Bottom, &mut caret, SIZE);
    assert_eq!(viewport.scroll_offset, 0);
    // The bottom content row lies past the buffer; the column clamps to
    // an empty line.
    assert_eq!(caret.position, Position { x: 4, y: 22 });
}

#[test]
fn test_max_left() {
    let (mut viewport, mut caret) = session(&["hello"], 9, 0, 0);
    perform_movement(&mut viewport, Action::MaxLeft, &mut caret, SIZE);
    assert_eq!(caret.position, Position { x: 4, y: 0 });
}

#[test]
fn test_max_right_to_line_end() {
    let (mut viewport, mut caret) = session(&["hello"], 4, 0, 0);
    perform_movement(&mut viewport, Action::MaxRight, &mut caret, SIZE);
    assert_eq!(caret.position, Position { x: 9, y: 0 });
}

#[test]
fn test_max_right_capped_by_terminal_width() {
    let size = Size { width: 6, height: 24 };
    let (mut viewport, mut caret) = session(&["hello"], 4, 0, 0);
    perform_movement(&mut viewport, Action::MaxRight, &mut caret, size);
    assert_eq!(caret.position, Position { x: 5, y: 0 });
}

#[test]
fn test_visibility_after_transitions() {
    // Whatever directional command runs, the caret row stays within the
    // content rows.
    let commands = [
        Action::Up,
        Action::Down,
        Action::Left,
        Action::Right,
        Action::Top,
        Action::Bottom,
        Action::MaxLeft,
        Action::MaxRight,
    ];
    for &command in commands.iter() {
        let (mut viewport, mut caret) = session(&["abc", "de", "f"], 5, 1, 1);
        perform_movement(&mut viewport, command, &mut caret, SIZE);
        assert!(caret.position.y <= SIZE.height - 2);
        assert!(viewport.scroll_offset < 3);
        assert!(caret.position.x >= 4);
    }
}

#[test]
fn test_next_line() {
    let mut caret = Caret::new();
    caret.move_to(Position { x: 10, y: 5 });
    caret.next_line(SIZE);
    assert_eq!(caret.position, Position { x: 4, y: 6 });
}

#[test]
fn test_next_line_at_bottom_row_stays() {
    let mut caret = Caret::new();
    caret.move_to(Position { x: 10, y: 22 });
    caret.next_line(SIZE);
    assert_eq!(caret.position, Position { x: 4, y: 22 });
}

#[test]
fn test_last_nonempty_line() {
    let buffer = buffer_of(&["a", "", "b", "", ""]);
    assert_eq!(buffer.last_nonempty_line(), 2);
    let blank = buffer_of(&["", ""]);
    assert_eq!(blank.last_nonempty_line(), 0);
}
