//! The closed set of editor commands a key press resolves to.

use vstd::prelude::*;

verus! {

/// An editor command. The eight directional commands drive the
/// caret/scroll controller; the last three are handled by the editor
/// session itself.
#[derive(Clone, Copy, Debug, PartialEq, Eq, Structural)]
pub enum Action {
    Left,
    Right,
    Up,
    Down,
    Top,
    Bottom,
    MaxLeft,
    MaxRight,
    NextLine,
    Quit,
    Print,
}

impl Action {
    /// The directional commands: those that move the caret or the viewport.
    pub open spec fn is_movement(self) -> bool {
        self is Left || self is Right || self is Up || self is Down || self is Top
            || self is Bottom || self is MaxLeft || self is MaxRight
    }
}

} // verus!
