//! Pointer interaction states that widgets and navigation buttons react to.
use vstd::prelude::*;

verus! {

/// A button's pointer interaction state.
#[derive(Clone, Copy, Debug, PartialEq, Eq, Structural)]
pub enum ButtonInteraction {
    /// The pointer is pressing the button.
    Pressed,
    /// The pointer is over the button without pressing it.
    Hovered,
    /// The pointer is elsewhere.
    Idle,
}

} // verus!
