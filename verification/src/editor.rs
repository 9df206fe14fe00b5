//! The editor session: one key press in, one fully determined state change
//! out. The surrounding program reads events, queries the terminal size,
//! and paints; every decision in between is made and proved here.

use vstd::prelude::*;
use crate::actions::Action;
use crate::caret::{Caret, spec_next_line};
use crate::geometry::{Size, size_wf, position_in_content};
use crate::selection::Selection;
use crate::shortcuts::{Key, KeyInput, Shortcuts, spec_resolve};
use crate::viewport::{
    Viewport, caret_model, move_step, move_with_selection, move_without_selection,
    spec_current_text_pos,
};

verus! {

/// The editor session state that outlives a single event.
pub struct TerminalEditor {
    pub quit_program: bool,
}

impl TerminalEditor {
    /// A session that has not been asked to quit.
    pub fn default() -> (e: TerminalEditor)
        ensures
            !e.quit_program,
    {
        TerminalEditor { quit_program: false }
    }

    /// Handle one key press: resolve it and run the command it names.
    /// Movement extends the selection when shift is held and discards it
    /// otherwise; `ctrl`+`q` raises the quit flag; a printable press hands
    /// the character back for echoing, breaking the line first when the
    /// caret stands on the last column.
    pub fn handle_key(
        &mut self,
        viewport: &mut Viewport,
        caret: &mut Caret,
        event: &KeyInput,
        size: Size,
    ) -> (echo: Option<char>)
        requires
            old(viewport).wf(),
            size_wf(size),
            position_in_content(old(caret).position, size),
        ensures
            final(viewport).wf(),
            position_in_content(final(caret).position, size),
            final(viewport).buffer == old(viewport).buffer,
            final(self).quit_program == (old(self).quit_program || spec_resolve(*event) is Quit),
            ({
                let a = spec_resolve(*event);
                let lines = old(viewport).buffer.view_lines();
                let s0 = caret_model(*old(caret), old(viewport).scroll_offset);
                let s1 = move_step(lines, s0, a, size.width as int, size.height as int);
                &&& a.is_movement() ==> {
                    &&& caret_model(*final(caret), final(viewport).scroll_offset) == s1
                    &&& echo is None
                    &&& final(viewport).is_dragging == old(viewport).is_dragging
                    &&& event.shift ==> final(viewport).selection == Some(
                        Selection {
                            anchor: if old(viewport).selection is Some {
                                old(viewport).selection->0.anchor
                            } else {
                                spec_current_text_pos(lines, s0)
                            },
                            cursor: spec_current_text_pos(lines, s1),
                        },
                    )
                    &&& !event.shift ==> final(viewport).selection is None
                }
                &&& !a.is_movement() ==> *final(viewport) == *old(viewport)
                &&& a is NextLine ==> {
                    &&& echo is None
                    &&& final(caret).position == spec_next_line(old(caret).position, size)
                }
                &&& a is Quit ==> {
                    &&& echo is None
                    &&& *final(caret) == *old(caret)
                }
                &&& a is Print ==> match event.code {
                    Key::Char(c) => {
                        &&& echo == Some(c)
                        &&& final(caret).position == if old(caret).position.x >= size.width - 1 {
                            spec_next_line(old(caret).position, size)
                        } else {
                            old(caret).position
                        }
                    },
                    _ => {
                        &&& echo is None
                        &&& *final(caret) == *old(caret)
                    },
                }
            }),
    {
        let action = match Shortcuts::resolve(event) {
            Some(a) => a,
            None => {
                return None;
            },
        };
        match action {
            Action::Left | Action::Right | Action::Up | Action::Down | Action::Top
                | Action::Bottom | Action::MaxLeft | Action::MaxRight => {
                if event.shift {
                    move_with_selection(viewport, action, caret, size);
                } else {
                    move_without_selection(viewport, action, caret, size);
                }
                None
            },
            Action::NextLine => {
                caret.next_line(size);
                None
            },
            Action::Quit => {
                self.quit_program = true;
                None
            },
            Action::Print => {
                match event.code {
                    Key::Char(c) => {
                        if caret.get_position().x >= size.width - 1 {
                            caret.next_line(size);
                        }
                        Some(c)
                    },
                    _ => None,
                }
            },
        }
    }
}

} // verus!
