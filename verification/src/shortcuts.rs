//! Key-event resolution: which editor command a key press stands for.
//!
//! A key press is modelled as the pressed key plus its modifier flags;
//! whatever event source the program runs on converts its own event type
//! into this one before the library sees it.

use vstd::prelude::*;
use crate::actions::Action;

verus! {

/// The pressed key, as far as the shortcut table cares: the named editing
/// keys, a printable character, or anything else.
#[derive(Clone, Copy, Debug, PartialEq, Eq, Structural)]
pub enum Key {
    Left,
    Right,
    Up,
    Down,
    PageUp,
    PageDown,
    Home,
    End,
    Enter,
    Char(char),
    Other,
}

/// A key press with its modifier flags.
#[derive(Clone, Copy, Debug, PartialEq, Eq, Structural)]
pub struct KeyInput {
    pub code: Key,
    pub ctrl: bool,
    pub shift: bool,
    pub alt: bool,
}

/// The shortcut table.
pub struct Shortcuts;

/// The command a key press resolves to: the named keys map to their
/// movement commands whatever the modifiers; `ctrl`+`q` alone quits; every
/// other press prints.
pub open spec fn spec_resolve(event: KeyInput) -> Action {
    match event.code {
        Key::Left => Action::Left,
        Key::Right => Action::Right,
        Key::Up => Action::Up,
        Key::Down => Action::Down,
        Key::PageUp => Action::Top,
        Key::PageDown => Action::Bottom,
        Key::Home => Action::MaxLeft,
        Key::End => Action::MaxRight,
        Key::Enter => Action::NextLine,
        Key::Char(c) => if c == 'q' && event.ctrl && !event.shift && !event.alt {
            Action::Quit
        } else {
            Action::Print
        },
        Key::Other => Action::Print,
    }
}

impl Shortcuts {
    /// Resolve a key press to its command; every press resolves.
    pub fn resolve(event: &KeyInput) -> (r: Option<Action>)
        ensures
            r == Some(spec_resolve(*event)),
    {
        match event.code {
            Key::Left => Some(Action::Left),
            Key::Right => Some(Action::Right),
            Key::Up => Some(Action::Up),
            Key::Down => Some(Action::Down),
            Key::PageUp => Some(Action::Top),
            Key::PageDown => Some(Action::Bottom),
            Key::Home => Some(Action::MaxLeft),
            Key::End => Some(Action::MaxRight),
            Key::Enter => Some(Action::NextLine),
            Key::Char(c) => if c == 'q' && event.ctrl && !event.shift && !event.alt {
                Some(Action::Quit)
            } else {
                Some(Action::Print)
            },
            Key::Other => Some(Action::Print),
        }
    }
}

} // verus!
