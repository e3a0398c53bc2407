//! Input requests that a host sends to a page.

use vstd::prelude::*;

verus! {

/// A point in view coordinates.
#[derive(Debug, Clone, Copy, PartialEq, Eq, Structural)]
pub struct Position {
    pub x: i32,
    pub y: i32,
}

/// Whether a button or a key goes down or comes up.
#[derive(PartialEq, Eq, Debug, Clone, Copy, Structural)]
pub enum ActionState {
    Down,
    Up,
}

impl ActionState {
    /// `true` exactly for [`ActionState::Down`].
    pub open spec fn pressed(self) -> bool {
        self is Down
    }

    #[verifier::when_used_as_spec(pressed)]
    pub fn is_pressed(self) -> (pressed: bool)
        ensures
            pressed == self.pressed(),
    {
        self == Self::Down
    }
}

/// A mouse request. `B` is the engine's own type for mouse buttons; it is
/// carried through untouched.
#[derive(Debug, Clone)]
pub enum MouseAction<B> {
    /// A button changes state, at a position or wherever the pointer is.
    Click(B, ActionState, Option<Position>),
    /// The pointer moves to a position.
    Move(Position),
    /// The wheel turns by the given deltas.
    Wheel(Position),
}

/// An input-method request.
#[derive(Debug)]
pub enum ImeAction<'a> {
    /// Commit the text, ending the composition.
    Composition(&'a str),
    /// Begin or update a composition with the text and a selection range.
    Pre(&'a str, i32, i32),
}

} // verus!
