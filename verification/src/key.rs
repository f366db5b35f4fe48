//! Key events, as the screens see them.

use vstd::prelude::*;

verus! {

/// One key press, reduced to the categories the screens tell apart.
#[derive(Clone, Copy, Debug, PartialEq, Eq)]
pub enum Key {
    ArrowUp,
    ArrowDown,
    ArrowLeft,
    ArrowRight,
    Enter,
    Escape,
    Backspace,
    /// A printable character.
    Char(char),
    /// Any key that no screen reacts to.
    Other,
}

} // verus!
