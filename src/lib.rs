//! Simulation core of a side-scrolling runner: a character state machine with
//! discrete physics, obstacles with direction-dependent collisions, a
//! procedural segment generator and the walk/game orchestration around them.
pub mod draw;
pub mod error;
pub mod game;
pub mod geometry;
pub mod keys;
pub mod obstacle;
pub mod red_hat_boy;
pub mod red_hat_boy_machine;
pub mod red_hat_boy_states;
pub mod segment;
pub mod sheet;
pub mod walk;

pub use draw::{DrawCommand, Texture};
pub use error::GameError;
pub use game::{Action, GamePhase, WalkTheDog, WalkTheDogStateMachine};
pub use geometry::{Point, Rect};
pub use keys::KeyState;
pub use obstacle::{Barrier, Image, Obstacle, Picture, Platform};
pub use red_hat_boy::RedHatBoy;
pub use red_hat_boy_machine::{Event, RedHatBoyStateMachine};
pub use red_hat_boy_states::{
    Falling, FallingState, Idle, Jumping, JumpingEndState, KnockedOut, Phase, RedHatBoyContext,
    RedHatBoyState, Running, Sliding, SlidingEndState,
};
pub use segment::{other_platform, rightmost, stone_and_platform};
pub use sheet::{Cell, Sheet, SheetRect};
pub use walk::Walk;
