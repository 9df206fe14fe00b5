//! Core of a terminal text editor: the viewport, caret and selection engine.
//!
//! The library translates between the logical text buffer (lines of
//! characters) and the bounded character grid of a terminal, while tracking a
//! scroll offset, a caret and an optionally active selection. Terminal
//! control-sequence emission, file handling and the network side of the
//! auto-updater live outside this crate; the decisions they act on are made
//! here.

pub mod actions;
pub mod buffer;
pub mod caret;
pub mod editor;
pub mod geometry;
pub mod mapper;
pub mod mouse;
pub mod selection;
pub mod shortcuts;
pub mod text;
pub mod updater;
pub mod version;
pub mod viewport;
