use vstd::prelude::*;

verus! {

/// What the player is doing.
#[derive(Clone, Copy, Debug, PartialEq, Eq, Structural)]
pub enum DinoState {
    /// Not moving.
    Idle,
    /// Moving along the horizontal axis.
    Running,
    /// Moving along the vertical axis.
    Jumping,
    /// Out of the game.
    Dead,
}

} // verus!
