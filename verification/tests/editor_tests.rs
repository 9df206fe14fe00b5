use quick_notepad::actions::Action;
use quick_notepad::buffer::Buffer;
use quick_notepad::caret::Caret;
use quick_notepad::editor::TerminalEditor;
use quick_notepad::geometry::{Position, Size};
use quick_notepad::selection::{Selection, TextPosition};
use quick_notepad::shortcuts::{Key, KeyInput, Shortcuts};
use quick_notepad::text::line_chars;
use quick_notepad::viewport::Viewport;

fn buffer_of(lines: &[&str]) -> Buffer {
    let mut rows: Vec<Vec<char>> = Vec::new();
    for line in lines {
        rows.push(line_chars(line));
    }
    Buffer::new(rows)
}

fn key(code: Key) -> KeyInput {
    KeyInput { code, ctrl: false, shift: false, alt: false }
}

const SIZE: Size = Size { width: 80, height: 24 };

#[test]
fn test_resolve_movement_keys() {
    assert_eq!(Shortcuts::resolve(&key(Key::Left)), Some(Action::Left));
    assert_eq!(Shortcuts::resolve(&key(Key::Right)), Some(Action::Right));
    assert_eq!(Shortcuts::resolve(&key(Key::Up)), Some(Action::Up));
    assert_eq!(Shortcuts::resolve(&key(Key::Down)), Some(Action::Down));
    assert_eq!(Shortcuts::resolve(&key(Key::PageUp)), Some(Action::Top));
    assert_eq!(Shortcuts::resolve(&key(Key::PageDown)), Some(Action::Bottom));
    assert_eq!(Shortcuts::resolve(&key(Key::Home)), Some(Action::MaxLeft));
    assert_eq!(Shortcuts::resolve(&key(Key::End)), Some(Action::MaxRight));
    assert_eq!(Shortcuts::resolve(&key(Key::Enter)), Some(Action::NextLine));
}

#[test]
fn test_resolve_quit_needs_ctrl_alone() {
    let mut quit = key(Key::Char('q'));
    quit.ctrl = true;
    assert_eq!(Shortcuts::resolve(&quit), Some(Action::Quit));
    assert_eq!(Shortcuts::resolve(&key(Key::Char('q'))), Some(Action::Print));
    let mut shifted = quit;
    shifted.shift = true;
    assert_eq!(Shortcuts::resolve(&shifted), Some(Action::Print));
}

#[test]
fn test_resolve_other_prints() {
    assert_eq!(Shortcuts::resolve(&key(Key::Char('a'))), Some(Action::Print));
    assert_eq!(Shortcuts::resolve(&key(Key::Other)), Some(Action::Print));
}

#[test]
fn test_quit_sets_flag() {
    let mut editor = TerminalEditor::default();
    assert!(!editor.quit_program);
    let mut viewport = Viewport::new(buffer_of(&["abc"]));
    let mut caret = Caret::new();
    let mut quit = key(Key::Char('q'));
    quit.ctrl = true;
    let echo = editor.handle_key(&mut viewport, &mut caret, &quit, SIZE);
    assert!(editor.quit_program);
    assert_eq!(echo, None);
}

#[test]
fn test_print_echoes_character() {
    let mut editor = TerminalEditor::default();
    let mut viewport = Viewport::new(buffer_of(&["abc"]));
    let mut caret = Caret::new();
    caret.move_to(Position { x: 10, y: 2 });
    let echo = editor.handle_key(&mut viewport, &mut caret, &key(Key::Char('x')), SIZE);
    assert_eq!(echo, Some('x'));
    assert_eq!(caret.position, Position { x: 10, y: 2 });
}

#[test]
fn test_print_at_last_column_breaks_line() {
    let mut editor = TerminalEditor::default();
    let mut viewport = Viewport::new(buffer_of(&["abc"]));
    let mut caret = Caret::new();
    caret.move_to(Position { x: 79, y: 2 });
    let echo = editor.handle_key(&mut viewport, &mut caret, &key(Key::Char('x')), SIZE);
    assert_eq!(echo, Some('x'));
    assert_eq!(caret.position, Position { x: 4, y: 3 });
}

#[test]
fn test_enter_breaks_line() {
    let mut editor = TerminalEditor::default();
    let mut viewport = Viewport::new(buffer_of(&["abc"]));
    let mut caret = Caret::new();
    caret.move_to(Position { x: 10, y: 2 });
    let echo = editor.handle_key(&mut viewport, &mut caret, &key(Key::Enter), SIZE);
    assert_eq!(echo, None);
    assert_eq!(caret.position, Position { x: 4, y: 3 });
}

#[test]
fn test_unmodified_move_clears_selection_via_key() {
    let mut editor = TerminalEditor::default();
    let mut viewport = Viewport::new(buffer_of(&["abc"]));
    viewport.selection = Some(Selection {
        anchor: TextPosition { line: 0, column: 0 },
        cursor: TextPosition { line: 0, column: 2 },
    });
    let mut caret = Caret::new();
    caret.move_to(Position { x: 6, y: 0 });
    editor.handle_key(&mut viewport, &mut caret, &key(Key::Left), SIZE);
    assert_eq!(viewport.selection, None);
}

#[test]
fn test_shift_move_selects_via_key() {
    let mut editor = TerminalEditor::default();
    let mut viewport = Viewport::new(buffer_of(&["abc"]));
    let mut caret = Caret::new();
    let mut shifted_right = key(Key::Right);
    shifted_right.shift = true;
    editor.handle_key(&mut viewport, &mut caret, &shifted_right, SIZE);
    assert_eq!(
        viewport.selection,
        Some(Selection {
            anchor: TextPosition { line: 0, column: 0 },
            cursor: TextPosition { line: 0, column: 1 },
        })
    );
    assert_eq!(caret.position, Position { x: 5, y: 0 });
}
