//! The character's phases as typestates: each phase is a zero-size tag, and a
//! transition consumes a state of one phase and returns a state of another.
use crate::geometry::Point;
use vstd::prelude::*;

verus! {

/// Height of the playing field.
pub const HEIGHT: i16 = 600;
/// Largest y the character's top may have: standing on the ground.
pub const FLOOR: i16 = 479;
/// Horizontal position at which the character starts.
pub const STARTING_POINT: i16 = -20;
/// Distance from the character's top to the ground it stands on.
pub const PLAYER_HEIGHT: i16 = HEIGHT - FLOOR;

pub const IDLE_FRAMES: u8 = 29;
pub const RUNNING_FRAMES: u8 = 23;
pub const SLIDING_FRAMES: u8 = 15;
pub const JUMPING_FRAMES: u8 = 35;
pub const FALLING_FRAMES: u8 = 29;

pub const RUNNING_SPEED: i16 = 4;
pub const JUMP_SPEED: i16 = -25;
pub const MAX_VELOCITY: i16 = 20;
pub const GRAVITY: i16 = 1;

/// The character's physical state, moved from phase to phase.
#[derive(Clone, Copy, Debug, PartialEq, Eq, Structural)]
pub struct RedHatBoyContext {
    pub frame: u8,
    pub position: Point,
    pub velocity: Point,
    /// A jump started and its sound has not been handed out yet.
    pub jump_sound_pending: bool,
}

pub open spec fn next_frame(frame: u8, frame_count: u8) -> u8 {
    if frame < frame_count {
        (frame + 1) as u8
    } else {
        0
    }
}

impl RedHatBoyContext {
    /// One step of vertical physics stays within `i16`.
    pub open spec fn can_fall(&self) -> bool {
        &&& i16::MIN <= self.position.y + self.velocity.y <= i16::MAX
        &&& self.velocity.y + GRAVITY <= i16::MAX
    }

    pub open spec fn with_frame(self, frame: u8) -> RedHatBoyContext {
        RedHatBoyContext {
            frame,
            position: self.position,
            velocity: self.velocity,
            jump_sound_pending: self.jump_sound_pending,
        }
    }

    pub open spec fn with_position_y(self, y: i16) -> RedHatBoyContext {
        RedHatBoyContext {
            frame: self.frame,
            position: Point { x: self.position.x, y },
            velocity: self.velocity,
            jump_sound_pending: self.jump_sound_pending,
        }
    }

    pub open spec fn with_velocity(self, x: i16, y: i16) -> RedHatBoyContext {
        RedHatBoyContext {
            frame: self.frame,
            position: self.position,
            velocity: Point { x, y },
            jump_sound_pending: self.jump_sound_pending,
        }
    }

    /// Integrate velocity into position, then gravity into velocity, then
    /// clamp: the velocity to `MAX_VELOCITY`, the position to `FLOOR`.
    pub open spec fn fallen(self) -> RedHatBoyContext {
        let y = self.position.y + self.velocity.y;
        let vy = self.velocity.y + GRAVITY;
        RedHatBoyContext {
            frame: self.frame,
            position: Point { x: self.position.x, y: (if y < FLOOR { y } else { FLOOR as int }) as i16 },
            velocity: Point {
                x: self.velocity.x,
                y: (if vy < MAX_VELOCITY { vy } else { MAX_VELOCITY as int }) as i16,
            },
            jump_sound_pending: self.jump_sound_pending,
        }
    }

    pub open spec fn updated(self, frame_count: u8) -> RedHatBoyContext {
        self.with_frame(next_frame(self.frame, frame_count)).fallen()
    }

    /// The character's top when standing on ground whose surface is at `y`.
    pub open spec fn placed_on(self, y: i16) -> RedHatBoyContext {
        self.with_position_y((y - PLAYER_HEIGHT) as i16)
    }

    pub open spec fn stopped(self) -> RedHatBoyContext {
        self.with_velocity(0, self.velocity.y).with_frame(0)
    }

    pub open spec fn jumped(self) -> RedHatBoyContext {
        RedHatBoyContext {
            frame: 0,
            position: self.position,
            velocity: Point { x: self.velocity.x, y: JUMP_SPEED },
            jump_sound_pending: true,
        }
    }

    /// Advance the animation counter, wrapping to 0 past `frame_count`, then
    /// apply physics.
    pub fn update(self, frame_count: u8) -> (r: Self)
        requires
            self.can_fall(),
        ensures
            r == self.updated(frame_count),
    {
        let mut ctx = self;
        if ctx.frame < frame_count {
            ctx.frame = ctx.frame + 1;
        } else {
            ctx.frame = 0;
        }
        ctx.apply_velocity()
    }

    /// Ask for the jump sound to be played.
    pub fn play_jump_sound(self) -> (r: Self)
        ensures
            r == (RedHatBoyContext { jump_sound_pending: true, ..self }),
    {
        let mut ctx = self;
        ctx.jump_sound_pending = true;
        ctx
    }

    pub fn apply_velocity(self) -> (r: Self)
        requires
            self.can_fall(),
        ensures
            r == self.fallen(),
    {
        let mut ctx = self;
        ctx.position.y = ctx.position.y + ctx.velocity.y;
        ctx.velocity.y = ctx.velocity.y + GRAVITY;
        if ctx.velocity.y > MAX_VELOCITY {
            ctx.velocity.y = MAX_VELOCITY;
        }
        if ctx.position.y > FLOOR {
            ctx.position.y = FLOOR;
        }
        ctx
    }

    pub fn reset_frame(self) -> (r: Self)
        ensures
            r == self.with_frame(0),
    {
        let mut ctx = self;
        ctx.frame = 0;
        ctx
    }

    pub fn run_right(self) -> (r: Self)
        requires
            self.velocity.x + RUNNING_SPEED <= i16::MAX,
        ensures
            r == self.with_velocity((self.velocity.x + RUNNING_SPEED) as i16, self.velocity.y),
    {
        let mut ctx = self;
        ctx.velocity.x = ctx.velocity.x + RUNNING_SPEED;
        ctx
    }

    pub fn set_vertical_velocity(self, speed: i16) -> (r: Self)
        ensures
            r == self.with_velocity(self.velocity.x, speed),
    {
        let mut ctx = self;
        ctx.velocity.y = speed;
        ctx
    }

    pub fn stop(self) -> (r: Self)
        ensures
            r == self.with_velocity(0, self.velocity.y),
    {
        let mut ctx = self;
        ctx.velocity.x = 0;
        ctx
    }

    pub fn set_on(self, position: i16) -> (r: Self)
        requires
            position - PLAYER_HEIGHT >= i16::MIN,
        ensures
            r == self.placed_on(position),
    {
        let mut ctx = self;
        let position = position - PLAYER_HEIGHT;
        ctx.position.y = position;
        ctx
    }
}

/// The phase a character is in.
#[derive(Clone, Copy, Debug, PartialEq, Eq, Structural)]
pub enum Phase {
    Idle,
    Running,
    Sliding,
    Jumping,
    Falling,
    KnockedOut,
}

/// The character's abstract state: its phase and its physical state.
pub struct BoyView {
    pub phase: Phase,
    pub context: RedHatBoyContext,
}

/// How many frames a phase's animation counts before it loops or completes.
pub open spec fn frame_limit(phase: Phase) -> u8 {
    match phase {
        Phase::Idle => IDLE_FRAMES,
        Phase::Running => RUNNING_FRAMES,
        Phase::Sliding => SLIDING_FRAMES,
        Phase::Jumping => JUMPING_FRAMES,
        Phase::Falling => FALLING_FRAMES,
        Phase::KnockedOut => FALLING_FRAMES,
    }
}

/// Name of the animation that a phase shows.
pub open spec fn animation_name(phase: Phase) -> Seq<char> {
    match phase {
        Phase::Idle => seq!['I', 'd', 'l', 'e'],
        Phase::Running => seq!['R', 'u', 'n'],
        Phase::Sliding => seq!['S', 'l', 'i', 'd', 'e'],
        Phase::Jumping => seq!['J', 'u', 'm', 'p'],
        Phase::Falling => seq!['D', 'e', 'a', 'd'],
        Phase::KnockedOut => seq!['D', 'e', 'a', 'd'],
    }
}

/// The initial state of a fresh character: idle, standing at the start.
pub open spec fn initial_context() -> RedHatBoyContext {
    RedHatBoyContext {
        frame: 0,
        position: Point { x: STARTING_POINT, y: FLOOR },
        velocity: Point { x: 0, y: 0 },
        jump_sound_pending: false,
    }
}

pub open spec fn view_of(phase: Phase, context: RedHatBoyContext) -> BoyView {
    BoyView { phase, context }
}

/// A slide ends, standing up to run, once its animation is through.
pub open spec fn sliding_updated(c: RedHatBoyContext) -> BoyView {
    let u = c.updated(SLIDING_FRAMES);
    if u.frame >= SLIDING_FRAMES {
        view_of(Phase::Running, u.with_frame(0))
    } else {
        view_of(Phase::Sliding, u)
    }
}

/// A jump ends, landing on the ground to run, once the character reaches the floor.
pub open spec fn jumping_updated(c: RedHatBoyContext) -> BoyView {
    let u = c.updated(JUMPING_FRAMES);
    if u.position.y >= FLOOR {
        view_of(Phase::Running, u.with_frame(0).placed_on(HEIGHT))
    } else {
        view_of(Phase::Jumping, u)
    }
}

/// A fall ends, knocked out, once its animation is through.
pub open spec fn falling_updated(c: RedHatBoyContext) -> BoyView {
    let u = c.updated(FALLING_FRAMES);
    if u.frame >= FALLING_FRAMES {
        view_of(Phase::KnockedOut, u)
    } else {
        view_of(Phase::Falling, u)
    }
}

#[derive(Clone, Copy)]
pub struct Idle;

#[derive(Clone, Copy)]
pub struct Running;

#[derive(Clone, Copy)]
pub struct Sliding;

#[derive(Clone, Copy)]
pub struct Jumping;

#[derive(Clone, Copy)]
pub struct Falling;

#[derive(Clone, Copy)]
pub struct KnockedOut;

/// The character in the phase `S`.
#[derive(Clone, Copy)]
pub struct RedHatBoyState<S> {
    pub context: RedHatBoyContext,
    _state: S,
}

impl<S> RedHatBoyState<S> {
    /// The physical state this state carries.
    pub closed spec fn spec_context(&self) -> RedHatBoyContext {
        self.context
    }

    pub fn context(&self) -> (r: &RedHatBoyContext)
        ensures
            *r == self.spec_context(),
    {
        &self.context
    }

    /// The same state, with the jump sound handed out.
    pub fn sound_taken(self) -> (r: Self)
        ensures
            r.spec_context() == (RedHatBoyContext { jump_sound_pending: false, ..self.spec_context() }),
    {
        RedHatBoyState {
            context: RedHatBoyContext { jump_sound_pending: false, ..self.context },
            _state: self._state,
        }
    }
}

impl RedHatBoyState<Idle> {
    /// Start running: the frame restarts and running speed is added.
    pub fn run(self) -> (r: RedHatBoyState<Running>)
        requires
            self.spec_context().velocity.x + RUNNING_SPEED <= i16::MAX,
        ensures
            r.spec_context() == self.spec_context().with_frame(0).with_velocity(
                (self.spec_context().velocity.x + RUNNING_SPEED) as i16,
                self.spec_context().velocity.y,
            ),
    {
        RedHatBoyState { context: self.context.reset_frame().run_right(), _state: Running {} }
    }

    pub fn new() -> (r: Self)
        ensures
            r.spec_context() == initial_context(),
    {
        RedHatBoyState {
            context: RedHatBoyContext {
                frame: 0,
                position: Point { x: STARTING_POINT, y: FLOOR },
                velocity: Point { x: 0, y: 0 },
                jump_sound_pending: false,
            },
            _state: Idle {},
        }
    }

    pub fn update(self) -> (r: Self)
        requires
            self.spec_context().can_fall(),
        ensures
            r.spec_context() == self.spec_context().updated(IDLE_FRAMES),
    {
        RedHatBoyState { context: self.context.update(IDLE_FRAMES), _state: self._state }
    }

    pub fn frame_name(&self) -> (r: &'static str)
        ensures
            r@ == animation_name(Phase::Idle),
    {
        proof {
            reveal_strlit("Idle");
        }
        "Idle"
    }
}

impl RedHatBoyState<Running> {
    pub fn frame_name(&self) -> (r: &'static str)
        ensures
            r@ == animation_name(Phase::Running),
    {
        proof {
            reveal_strlit("Run");
        }
        "Run"
    }

    pub fn update(self) -> (r: Self)
        requires
            self.spec_context().can_fall(),
        ensures
            r.spec_context() == self.spec_context().updated(RUNNING_FRAMES),
    {
        RedHatBoyState { context: self.context.update(RUNNING_FRAMES), _state: self._state }
    }

    pub fn slide(self) -> (r: RedHatBoyState<Sliding>)
        ensures
            r.spec_context() == self.spec_context().with_frame(0),
    {
        RedHatBoyState { context: self.context.reset_frame(), _state: Sliding {} }
    }

    pub fn knock_out(self) -> (r: RedHatBoyState<Falling>)
        ensures
            r.spec_context() == self.spec_context().stopped(),
    {
        RedHatBoyState { context: self.context.reset_frame().stop(), _state: Falling {} }
    }

    /// Leap upwards at `JUMP_SPEED`, asking for the jump sound.
    pub fn jump(self) -> (r: RedHatBoyState<Jumping>)
        ensures
            r.spec_context() == self.spec_context().jumped(),
    {
        RedHatBoyState {
            context: self.context.set_vertical_velocity(JUMP_SPEED).reset_frame().play_jump_sound(),
            _state: Jumping {},
        }
    }

    pub fn land_on(self, position: i16) -> (r: Self)
        requires
            position - PLAYER_HEIGHT >= i16::MIN,
        ensures
            r.spec_context() == self.spec_context().placed_on(position),
    {
        RedHatBoyState { context: self.context.set_on(position), _state: Running {} }
    }
}

/// Outcome of a sliding update: the slide completed, or goes on.
pub enum SlidingEndState {
    Complete(RedHatBoyState<Running>),
    Sliding(RedHatBoyState<Sliding>),
}

impl View for SlidingEndState {
    type V = BoyView;

    open spec fn view(&self) -> BoyView {
        match self {
            SlidingEndState::Complete(s) => view_of(Phase::Running, s.spec_context()),
            SlidingEndState::Sliding(s) => view_of(Phase::Sliding, s.spec_context()),
        }
    }
}

impl RedHatBoyState<Sliding> {
    pub fn frame_name(&self) -> (r: &'static str)
        ensures
            r@ == animation_name(Phase::Sliding),
    {
        proof {
            reveal_strlit("Slide");
        }
        "Slide"
    }

    pub fn update(self) -> (r: SlidingEndState)
        requires
            self.spec_context().can_fall(),
        ensures
            r@ == sliding_updated(self.spec_context()),
    {
        let state = RedHatBoyState { context: self.context.update(SLIDING_FRAMES), _state: self._state };
        if state.context.frame >= SLIDING_FRAMES {
            SlidingEndState::Complete(state.stand())
        } else {
            SlidingEndState::Sliding(state)
        }
    }

    pub fn stand(self) -> (r: RedHatBoyState<Running>)
        ensures
            r.spec_context() == self.spec_context().with_frame(0),
    {
        RedHatBoyState { context: self.context.reset_frame(), _state: Running {} }
    }

    pub fn knock_out(self) -> (r: RedHatBoyState<Falling>)
        ensures
            r.spec_context() == self.spec_context().stopped(),
    {
        RedHatBoyState { context: self.context.reset_frame().stop(), _state: Falling {} }
    }

    pub fn land_on(self, position: i16) -> (r: Self)
        requires
            position - PLAYER_HEIGHT >= i16::MIN,
        ensures
            r.spec_context() == self.spec_context().placed_on(position),
    {
        RedHatBoyState { context: self.context.set_on(position), _state: Sliding {} }
    }
}

/// Outcome of a jumping update: the jump landed, or goes on.
pub enum JumpingEndState {
    Complete(RedHatBoyState<Running>),
    Jumping(RedHatBoyState<Jumping>),
}

impl View for JumpingEndState {
    type V = BoyView;

    open spec fn view(&self) -> BoyView {
        match self {
            JumpingEndState::Complete(s) => view_of(Phase::Running, s.spec_context()),
            JumpingEndState::Jumping(s) => view_of(Phase::Jumping, s.spec_context()),
        }
    }
}

impl RedHatBoyState<Jumping> {
    pub fn update(self) -> (r: JumpingEndState)
        requires
            self.spec_context().can_fall(),
        ensures
            r@ == jumping_updated(self.spec_context()),
    {
        let state = RedHatBoyState { context: self.context.update(JUMPING_FRAMES), _state: self._state };
        if state.context.position.y >= FLOOR {
            JumpingEndState::Complete(state.land_on(HEIGHT))
        } else {
            JumpingEndState::Jumping(state)
        }
    }

    pub fn frame_name(&self) -> (r: &'static str)
        ensures
            r@ == animation_name(Phase::Jumping),
    {
        proof {
            reveal_strlit("Jump");
        }
        "Jump"
    }

    pub fn land_on(self, position: i16) -> (r: RedHatBoyState<Running>)
        requires
            position - PLAYER_HEIGHT >= i16::MIN,
        ensures
            r.spec_context() == self.spec_context().with_frame(0).placed_on(position),
    {
        RedHatBoyState { context: self.context.reset_frame().set_on(position), _state: Running {} }
    }

    pub fn knock_out(self) -> (r: RedHatBoyState<Falling>)
        ensures
            r.spec_context() == self.spec_context().stopped(),
    {
        RedHatBoyState { context: self.context.reset_frame().stop(), _state: Falling {} }
    }
}

/// Outcome of a falling update: the character is knocked out, or still falls.
pub enum FallingState {
    Complete(RedHatBoyState<KnockedOut>),
    Falling(RedHatBoyState<Falling>),
}

impl View for FallingState {
    type V = BoyView;

    open spec fn view(&self) -> BoyView {
        match self {
            FallingState::Complete(s) => view_of(Phase::KnockedOut, s.spec_context()),
            FallingState::Falling(s) => view_of(Phase::Falling, s.spec_context()),
        }
    }
}

impl RedHatBoyState<Falling> {
    pub fn update(self) -> (r: FallingState)
        requires
            self.spec_context().can_fall(),
        ensures
            r@ == falling_updated(self.spec_context()),
    {
        let state = RedHatBoyState { context: self.context.update(FALLING_FRAMES), _state: self._state };
        if state.context.frame >= FALLING_FRAMES {
            FallingState::Complete(state.dead())
        } else {
            FallingState::Falling(state)
        }
    }

    pub fn frame_name(&self) -> (r: &'static str)
        ensures
            r@ == animation_name(Phase::Falling),
    {
        proof {
            reveal_strlit("Dead");
        }
        "Dead"
    }

    pub fn dead(self) -> (r: RedHatBoyState<KnockedOut>)
        ensures
            r.spec_context() == self.spec_context(),
    {
        RedHatBoyState { context: self.context, _state: KnockedOut {} }
    }
}

impl RedHatBoyState<KnockedOut> {
    pub fn frame_name(&self) -> (r: &'static str)
        ensures
            r@ == animation_name(Phase::KnockedOut),
    {
        proof {
            reveal_strlit("Dead");
        }
        "Dead"
    }

    /// A knocked-out character no longer animates but still falls.
    pub fn update(self) -> (r: Self)
        requires
            self.spec_context().can_fall(),
        ensures
            r.spec_context() == self.spec_context().fallen(),
    {
        RedHatBoyState { context: self.context.apply_velocity(), _state: self._state }
    }

    pub fn land_on(self, position: i16) -> (r: Self)
        requires
            position - PLAYER_HEIGHT >= i16::MIN,
        ensures
            r.spec_context() == self.spec_context().placed_on(position),
    {
        RedHatBoyState { context: self.context.set_on(position), _state: KnockedOut {} }
    }
}

} // verus!
