//! What the simulation asks a renderer to draw: the core computes every
//! rectangle and performs no drawing of its own.
use crate::geometry::{Point, Rect};
use vstd::prelude::*;

verus! {

/// The images the game draws from.
#[derive(Clone, Copy, Debug, PartialEq, Eq, Structural)]
pub enum Texture {
    /// The character's sprite atlas.
    Boy,
    /// The scrolling background.
    Background,
    /// The stone of a barrier.
    Stone,
    /// The atlas of platform tiles.
    Tiles,
}

/// One request to the renderer.
#[derive(Clone, Copy, Debug, PartialEq, Eq, Structural)]
pub enum DrawCommand {
    /// Clear the screen area `rect`.
    Clear { rect: Rect },
    /// Draw a whole image with its top-left corner at `position`.
    Image { texture: Texture, position: Point },
    /// Draw the part `source` of an image into `destination` on screen.
    Sprite { texture: Texture, source: Rect, destination: Rect },
    /// Outline `rect`, showing a collision box.
    Outline { rect: Rect },
}

} // verus!
