//! Failures of setting up a game.
use vstd::prelude::*;

verus! {

#[derive(Clone, Copy, Debug, PartialEq, Eq, Structural)]
pub enum GameError {
    /// The character's atlas lacks a frame of an animation, or holds one out of bounds.
    IncompleteSheet,
    /// A platform tile is missing from the tile atlas, or out of bounds.
    MissingTile,
    /// An image is larger than `MAX_EXTENT`, or a background narrower than
    /// the running speed.
    ImageOutOfBounds,
    /// The game was set up already.
    AlreadyInitialized,
}

} // verus!
