//! Frame logic of a side-scrolling runner: sprite animation driven by a
//! repeating timer, and keyboard-driven velocity of the player.

pub mod animation;
pub mod movement;
pub mod state;
