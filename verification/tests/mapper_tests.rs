use quick_notepad::buffer::Buffer;
use quick_notepad::mapper::{screen_to_text, text_to_screen};
use quick_notepad::selection::TextPosition;
use quick_notepad::text::line_chars;

fn buffer_of(lines: &[&str]) -> Buffer {
    let mut rows: Vec<Vec<char>> = Vec::new();
    for line in lines {
        rows.push(line_chars(line));
    }
    Buffer::new(rows)
}

#[test]
fn test_round_trip() {
    // A valid position, placed in view, survives the trip to the screen
    // and back unchanged.
    let buffer = buffer_of(&[
        "0123456789",
        "0123456789",
        "0123456789",
        "0123456789",
        "0123456789",
        "0123456789",
    ]);
    let p = TextPosition { line: 5, column: 7 };
    let scroll = 3;
    let on_screen = text_to_screen(p, scroll);
    assert_eq!(on_screen.x, 11);
    assert_eq!(on_screen.y, 2);
    let back = screen_to_text(&buffer, on_screen.x, on_screen.y, scroll);
    assert_eq!(back, p);
}

#[test]
fn test_round_trip_at_origin() {
    let buffer = buffer_of(&["abc"]);
    let p = TextPosition { line: 0, column: 0 };
    let on_screen = text_to_screen(p, 0);
    assert_eq!((on_screen.x, on_screen.y), (4, 0));
    assert_eq!(screen_to_text(&buffer, on_screen.x, on_screen.y, 0), p);
}

#[test]
fn test_clamp_past_end_of_line() {
    let buffer = buffer_of(&["abc"]);
    let p = screen_to_text(&buffer, 50, 0, 0);
    assert_eq!(p, TextPosition { line: 0, column: 3 });
}

#[test]
fn test_clamp_past_last_line() {
    let buffer = buffer_of(&["abc", "de"]);
    let p = screen_to_text(&buffer, 5, 40, 0);
    assert_eq!(p, TextPosition { line: 1, column: 1 });
}

#[test]
fn test_clamp_inside_gutter() {
    // A click in the line-number gutter resolves to column zero.
    let buffer = buffer_of(&["abc"]);
    let p = screen_to_text(&buffer, 0, 0, 0);
    assert_eq!(p, TextPosition { line: 0, column: 0 });
}

#[test]
fn test_clamp_with_large_scroll() {
    // A scroll offset past the end still yields the last line.
    let buffer = buffer_of(&["abc", "de", "f"]);
    let p = screen_to_text(&buffer, 4, 0, 2);
    assert_eq!(p, TextPosition { line: 2, column: 0 });
    let q = screen_to_text(&buffer, 4, 9, 2);
    assert_eq!(q, TextPosition { line: 2, column: 0 });
}

#[test]
fn test_text_to_screen_does_not_clamp_to_window() {
    // The mapper applies the formula even for positions far below the
    // visible rows; keeping them in view is the caller's business.
    let p = TextPosition { line: 500, column: 2 };
    let on_screen = text_to_screen(p, 0);
    assert_eq!(on_screen.y, 500);
    assert_eq!(on_screen.x, 6);
}
