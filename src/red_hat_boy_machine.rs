//! The character's state machine: one of six phases, each wrapping the
//! physical state, driven by events.
use crate::red_hat_boy_states::{
    animation_name, falling_updated, frame_limit, initial_context, jumping_updated,
    sliding_updated, view_of, BoyView, Falling, FallingState, Idle, Jumping, JumpingEndState,
    KnockedOut, Phase, RedHatBoyContext, RedHatBoyState, Running, Sliding, SlidingEndState,
    FLOOR, HEIGHT, IDLE_FRAMES, JUMPING_FRAMES, SLIDING_FRAMES, JUMP_SPEED, MAX_VELOCITY, RUNNING_FRAMES,
    RUNNING_SPEED, STARTING_POINT,
};
use vstd::prelude::*;

verus! {

/// Lowest ground surface the character may land on: low enough for any
/// platform on screen, high enough that every later climb stays representable.
pub const LOWEST_LANDING: i16 = -30000;

/// What can happen to the character.
#[derive(Clone, Copy, Debug, PartialEq, Eq, Structural)]
pub enum Event {
    Run,
    Slide,
    Jump,
    KnockOut,
    Land(i16),
    Update,
}

impl Event {
    /// A landing surface lies between `LOWEST_LANDING` and the bottom of the field.
    pub open spec fn admissible(self) -> bool {
        self matches Event::Land(y) ==> LOWEST_LANDING <= y <= HEIGHT
    }
}

/// The height a character moving up at speed `-vy` may still gain.
pub open spec fn climb(vy: int) -> int {
    if vy < 0 {
        vy * JUMP_SPEED
    } else {
        0
    }
}

/// Height kept in reserve for a jump that the phase may still start.
pub open spec fn jump_reserve(phase: Phase) -> int {
    match phase {
        Phase::Idle | Phase::Running | Phase::Sliding => climb(JUMP_SPEED as int),
        _ => 0,
    }
}

impl BoyView {
    /// The character's invariant: it is never below the floor, never falls
    /// faster than the terminal velocity, runs at most at running speed, and
    /// has the headroom for every climb still ahead of it.
    pub open spec fn wf(self) -> bool {
        let c = self.context;
        &&& JUMP_SPEED <= c.velocity.y <= MAX_VELOCITY
        &&& 0 <= c.velocity.x <= RUNNING_SPEED
        &&& (self.phase == Phase::Idle ==> c.velocity.x == 0)
        &&& i16::MIN + climb(c.velocity.y as int) + jump_reserve(self.phase) <= c.position.y
        &&& c.position.y <= FLOOR
        &&& c.position.x == STARTING_POINT
        &&& c.frame <= frame_limit(self.phase)
    }
}

/// The transition table: what `event` does to a character; every pair not
/// listed leaves the character unchanged.
pub open spec fn step(b: BoyView, event: Event) -> BoyView {
    let c = b.context;
    match event {
        Event::Run => match b.phase {
            Phase::Idle => view_of(
                Phase::Running,
                c.with_frame(0).with_velocity((c.velocity.x + RUNNING_SPEED) as i16, c.velocity.y),
            ),
            _ => b,
        },
        Event::Slide => match b.phase {
            Phase::Running => view_of(Phase::Sliding, c.with_frame(0)),
            _ => b,
        },
        Event::Jump => match b.phase {
            Phase::Running => view_of(Phase::Jumping, c.jumped()),
            _ => b,
        },
        Event::KnockOut => match b.phase {
            Phase::Running | Phase::Sliding | Phase::Jumping => view_of(Phase::Falling, c.stopped()),
            _ => b,
        },
        Event::Land(y) => match b.phase {
            Phase::Running => view_of(Phase::Running, c.placed_on(y)),
            Phase::Sliding => view_of(Phase::Sliding, c.placed_on(y)),
            Phase::Jumping => view_of(Phase::Running, c.with_frame(0).placed_on(y)),
            Phase::KnockedOut => view_of(Phase::KnockedOut, c.placed_on(y)),
            _ => b,
        },
        Event::Update => match b.phase {
            Phase::Idle => view_of(Phase::Idle, c.updated(IDLE_FRAMES)),
            Phase::Running => view_of(Phase::Running, c.updated(RUNNING_FRAMES)),
            Phase::Sliding => sliding_updated(c),
            Phase::Jumping => jumping_updated(c),
            Phase::Falling => falling_updated(c),
            Phase::KnockedOut => view_of(Phase::KnockedOut, c.fallen()),
        },
    }
}

/// Every transition keeps the character's invariant: in particular the
/// character is never below the floor and never falls faster than
/// `MAX_VELOCITY`.
pub proof fn lemma_step_keeps_wf(b: BoyView, event: Event)
    requires
        b.wf(),
        event.admissible(),
    ensures
        step(b, event).wf(),
        step(b, event).context.position.y <= FLOOR,
        step(b, event).context.velocity.y <= MAX_VELOCITY,
{
}

/// An update always leaves the character at or above the floor and within
/// the terminal velocity, whatever state it starts from.
pub proof fn lemma_update_clamps(b: BoyView)
    requires
        b.context.can_fall(),
    ensures
        step(b, Event::Update).context.position.y <= FLOOR,
        step(b, Event::Update).context.velocity.y <= MAX_VELOCITY,
{
}

/// The pairs of phase and event that the transition table lists.
pub open spec fn listed(phase: Phase, event: Event) -> bool {
    match event {
        Event::Run => phase == Phase::Idle,
        Event::Slide | Event::Jump => phase == Phase::Running,
        Event::KnockOut => phase == Phase::Running || phase == Phase::Sliding || phase == Phase::Jumping,
        Event::Land(_) => phase != Phase::Idle && phase != Phase::Falling,
        Event::Update => true,
    }
}

/// An event that the table does not list for the character's phase leaves
/// the character exactly as it was.
pub proof fn lemma_unlisted_event_is_ignored(b: BoyView, event: Event)
    requires
        !listed(b.phase, event),
    ensures
        step(b, event) == b,
{
}

/// Starting to run, starting to jump, and landing at the end of a jump each
/// restart the animation at frame 0.
pub proof fn lemma_frame_resets(b: BoyView)
    requires
        b.wf(),
    ensures
        b.phase == Phase::Idle ==> step(b, Event::Run).phase == Phase::Running && step(b, Event::Run).context.frame == 0,
        b.phase == Phase::Running ==> step(b, Event::Jump).phase == Phase::Jumping && step(b, Event::Jump).context.frame == 0,
        b.phase == Phase::Jumping && b.context.updated(JUMPING_FRAMES).position.y >= FLOOR ==> {
            &&& step(b, Event::Update).phase == Phase::Running
            &&& step(b, Event::Update).context.frame == 0
            &&& step(b, Event::Update).context.position.y == FLOOR
        },
        b.phase == Phase::Jumping && b.context.updated(JUMPING_FRAMES).position.y < FLOOR ==> step(b, Event::Update).phase == Phase::Jumping,
{
}

/// One update of a jump or a slide, for any physical state whose physics
/// step fits in `i16`. A jump that reaches the floor lands on the ground,
/// running from frame 0; short of the floor it goes on jumping. A slide short
/// of its last frame goes on sliding, one frame further.
pub proof fn lemma_jump_and_slide_updates(c: RedHatBoyContext)
    requires
        c.can_fall(),
    ensures
        c.updated(JUMPING_FRAMES).position.y >= FLOOR ==> {
            let r = step(view_of(Phase::Jumping, c), Event::Update);
            &&& r == view_of(Phase::Running, c.updated(JUMPING_FRAMES).with_frame(0).placed_on(HEIGHT))
            &&& r.context.frame == 0
            &&& r.context.position.y == FLOOR
        },
        c.updated(JUMPING_FRAMES).position.y < FLOOR ==> step(view_of(Phase::Jumping, c), Event::Update)
            == view_of(Phase::Jumping, c.updated(JUMPING_FRAMES)),
        c.frame < SLIDING_FRAMES - 1 ==> {
            let r = step(view_of(Phase::Sliding, c), Event::Update);
            &&& r.phase == Phase::Sliding
            &&& r.context.frame == c.frame + 1
            &&& r.context == c.updated(SLIDING_FRAMES)
        },
{
}

/// The character after `n` updates.
pub open spec fn updated_times(b: BoyView, n: nat) -> BoyView
    decreases n,
{
    if n == 0 {
        b
    } else {
        step(updated_times(b, (n - 1) as nat), Event::Update)
    }
}

/// A slide started at frame 0 lasts `SLIDING_FRAMES` updates: one update
/// fewer leaves the character sliding, and the last one stands it up to run
/// from frame 0.
pub proof fn lemma_slide_duration(b: BoyView)
    requires
        b.wf(),
        b.phase == Phase::Sliding,
        b.context.frame == 0,
    ensures
        updated_times(b, (SLIDING_FRAMES - 1) as nat).phase == Phase::Sliding,
        updated_times(b, SLIDING_FRAMES as nat).phase == Phase::Running,
        updated_times(b, SLIDING_FRAMES as nat).context.frame == 0,
{
    lemma_sliding_frames(b, (SLIDING_FRAMES - 1) as nat);
    let last = updated_times(b, (SLIDING_FRAMES - 1) as nat);
    lemma_step_keeps_wf(last, Event::Update);
}

proof fn lemma_sliding_frames(b: BoyView, n: nat)
    requires
        b.wf(),
        b.phase == Phase::Sliding,
        b.context.frame == 0,
        n < SLIDING_FRAMES,
    ensures
        updated_times(b, n).phase == Phase::Sliding,
        updated_times(b, n).context.frame == n,
        updated_times(b, n).wf(),
    decreases n,
{
    if n > 0 {
        lemma_sliding_frames(b, (n - 1) as nat);
        lemma_step_keeps_wf(updated_times(b, (n - 1) as nat), Event::Update);
    }
}

/// The character in one of its six phases.
#[derive(Clone, Copy)]
pub enum RedHatBoyStateMachine {
    Idle(RedHatBoyState<Idle>),
    Running(RedHatBoyState<Running>),
    Sliding(RedHatBoyState<Sliding>),
    Jumping(RedHatBoyState<Jumping>),
    Falling(RedHatBoyState<Falling>),
    KnockedOut(RedHatBoyState<KnockedOut>),
}

impl View for RedHatBoyStateMachine {
    type V = BoyView;

    open spec fn view(&self) -> BoyView {
        match self {
            RedHatBoyStateMachine::Idle(s) => view_of(Phase::Idle, s.spec_context()),
            RedHatBoyStateMachine::Running(s) => view_of(Phase::Running, s.spec_context()),
            RedHatBoyStateMachine::Sliding(s) => view_of(Phase::Sliding, s.spec_context()),
            RedHatBoyStateMachine::Jumping(s) => view_of(Phase::Jumping, s.spec_context()),
            RedHatBoyStateMachine::Falling(s) => view_of(Phase::Falling, s.spec_context()),
            RedHatBoyStateMachine::KnockedOut(s) => view_of(Phase::KnockedOut, s.spec_context()),
        }
    }
}

impl From<SlidingEndState> for RedHatBoyStateMachine {
    fn from(end_state: SlidingEndState) -> (r: Self)
        ensures
            r@ == end_state@,
    {
        match end_state {
            SlidingEndState::Complete(running_state) => RedHatBoyStateMachine::Running(running_state),
            SlidingEndState::Sliding(sliding_state) => RedHatBoyStateMachine::Sliding(sliding_state),
        }
    }
}

impl vstd::std_specs::convert::FromSpecImpl<SlidingEndState> for RedHatBoyStateMachine {
    open spec fn obeys_from_spec() -> bool {
        true
    }

    open spec fn from_spec(end_state: SlidingEndState) -> Self {
        match end_state {
            SlidingEndState::Complete(s) => RedHatBoyStateMachine::Running(s),
            SlidingEndState::Sliding(s) => RedHatBoyStateMachine::Sliding(s),
        }
    }
}

impl From<JumpingEndState> for RedHatBoyStateMachine {
    fn from(end_state: JumpingEndState) -> (r: Self)
        ensures
            r@ == end_state@,
    {
        match end_state {
            JumpingEndState::Complete(running_state) => RedHatBoyStateMachine::Running(running_state),
            JumpingEndState::Jumping(jumping_state) => RedHatBoyStateMachine::Jumping(jumping_state),
        }
    }
}

impl vstd::std_specs::convert::FromSpecImpl<JumpingEndState> for RedHatBoyStateMachine {
    open spec fn obeys_from_spec() -> bool {
        true
    }

    open spec fn from_spec(end_state: JumpingEndState) -> Self {
        match end_state {
            JumpingEndState::Complete(s) => RedHatBoyStateMachine::Running(s),
            JumpingEndState::Jumping(s) => RedHatBoyStateMachine::Jumping(s),
        }
    }
}

impl From<FallingState> for RedHatBoyStateMachine {
    fn from(falling_state: FallingState) -> (r: Self)
        ensures
            r@ == falling_state@,
    {
        match falling_state {
            FallingState::Complete(knockout_state) => RedHatBoyStateMachine::KnockedOut(knockout_state),
            FallingState::Falling(falling_state) => RedHatBoyStateMachine::Falling(falling_state),
        }
    }
}

impl vstd::std_specs::convert::FromSpecImpl<FallingState> for RedHatBoyStateMachine {
    open spec fn obeys_from_spec() -> bool {
        true
    }

    open spec fn from_spec(falling_state: FallingState) -> Self {
        match falling_state {
            FallingState::Complete(s) => RedHatBoyStateMachine::KnockedOut(s),
            FallingState::Falling(s) => RedHatBoyStateMachine::Falling(s),
        }
    }
}

impl RedHatBoyStateMachine {
    /// A fresh character: idle at the starting point.
    pub fn new() -> (r: Self)
        ensures
            r@ == view_of(Phase::Idle, initial_context()),
            r@.wf(),
    {
        RedHatBoyStateMachine::Idle(RedHatBoyState::new())
    }

    /// Apply one event, following the transition table.
    pub fn transition(self, event: Event) -> (r: Self)
        requires
            self@.wf(),
            event.admissible(),
        ensures
            r@ == step(self@, event),
            r@.wf(),
    {
        proof {
            lemma_step_keeps_wf(self@, event);
        }
        match (self, event) {
            (RedHatBoyStateMachine::Idle(state), Event::Run) => RedHatBoyStateMachine::Running(state.run()),
            (RedHatBoyStateMachine::Running(state), Event::Slide) => RedHatBoyStateMachine::Sliding(state.slide()),
            (RedHatBoyStateMachine::Running(state), Event::Jump) => RedHatBoyStateMachine::Jumping(state.jump()),
            (RedHatBoyStateMachine::Running(state), Event::KnockOut) => RedHatBoyStateMachine::Falling(state.knock_out()),
            (RedHatBoyStateMachine::Running(state), Event::Land(position)) => {
                RedHatBoyStateMachine::Running(state.land_on(position))
            },
            (RedHatBoyStateMachine::Jumping(state), Event::KnockOut) => RedHatBoyStateMachine::Falling(state.knock_out()),
            (RedHatBoyStateMachine::Jumping(state), Event::Land(position)) => {
                RedHatBoyStateMachine::Running(state.land_on(position))
            },
            (RedHatBoyStateMachine::Sliding(state), Event::KnockOut) => RedHatBoyStateMachine::Falling(state.knock_out()),
            (RedHatBoyStateMachine::Sliding(state), Event::Land(position)) => {
                RedHatBoyStateMachine::Sliding(state.land_on(position))
            },
            (RedHatBoyStateMachine::KnockedOut(state), Event::Land(position)) => {
                RedHatBoyStateMachine::KnockedOut(state.land_on(position))
            },
            (RedHatBoyStateMachine::Idle(state), Event::Update) => RedHatBoyStateMachine::Idle(state.update()),
            (RedHatBoyStateMachine::Running(state), Event::Update) => RedHatBoyStateMachine::Running(state.update()),
            (RedHatBoyStateMachine::Sliding(state), Event::Update) => state.update().into(),
            (RedHatBoyStateMachine::Jumping(state), Event::Update) => state.update().into(),
            (RedHatBoyStateMachine::Falling(state), Event::Update) => state.update().into(),
            (RedHatBoyStateMachine::KnockedOut(state), Event::Update) => RedHatBoyStateMachine::KnockedOut(state.update()),
            _ => self,
        }
    }

    /// Name of the animation the current phase shows.
    pub fn frame_name(&self) -> (r: &'static str)
        ensures
            r@ == animation_name(self@.phase),
    {
        match self {
            RedHatBoyStateMachine::Idle(state) => state.frame_name(),
            RedHatBoyStateMachine::Running(state) => state.frame_name(),
            RedHatBoyStateMachine::Sliding(state) => state.frame_name(),
            RedHatBoyStateMachine::Jumping(state) => state.frame_name(),
            RedHatBoyStateMachine::Falling(state) => state.frame_name(),
            RedHatBoyStateMachine::KnockedOut(state) => state.frame_name(),
        }
    }

    pub fn context(&self) -> (r: &RedHatBoyContext)
        ensures
            *r == self@.context,
    {
        match self {
            RedHatBoyStateMachine::Idle(state) => state.context(),
            RedHatBoyStateMachine::Running(state) => state.context(),
            RedHatBoyStateMachine::Sliding(state) => state.context(),
            RedHatBoyStateMachine::Jumping(state) => state.context(),
            RedHatBoyStateMachine::Falling(state) => state.context(),
            RedHatBoyStateMachine::KnockedOut(state) => state.context(),
        }
    }

    pub fn update(self) -> (r: Self)
        requires
            self@.wf(),
        ensures
            r@ == step(self@, Event::Update),
            r@.wf(),
    {
        self.transition(Event::Update)
    }

    /// Whether a jump sound is owed, and the machine with it handed out.
    pub fn take_jump_sound(self) -> (r: (Self, bool))
        ensures
            r.1 == self@.context.jump_sound_pending,
            r.0@ == view_of(self@.phase, RedHatBoyContext { jump_sound_pending: false, ..self@.context }),
    {
        let pending = self.context().jump_sound_pending;
        let machine = match self {
            RedHatBoyStateMachine::Idle(state) => RedHatBoyStateMachine::Idle(state.sound_taken()),
            RedHatBoyStateMachine::Running(state) => RedHatBoyStateMachine::Running(state.sound_taken()),
            RedHatBoyStateMachine::Sliding(state) => RedHatBoyStateMachine::Sliding(state.sound_taken()),
            RedHatBoyStateMachine::Jumping(state) => RedHatBoyStateMachine::Jumping(state.sound_taken()),
            RedHatBoyStateMachine::Falling(state) => RedHatBoyStateMachine::Falling(state.sound_taken()),
            RedHatBoyStateMachine::KnockedOut(state) => RedHatBoyStateMachine::KnockedOut(state.sound_taken()),
        };
        (machine, pending)
    }

    pub fn phase(&self) -> (r: Phase)
        ensures
            r == self@.phase,
    {
        match self {
            RedHatBoyStateMachine::Idle(_) => Phase::Idle,
            RedHatBoyStateMachine::Running(_) => Phase::Running,
            RedHatBoyStateMachine::Sliding(_) => Phase::Sliding,
            RedHatBoyStateMachine::Jumping(_) => Phase::Jumping,
            RedHatBoyStateMachine::Falling(_) => Phase::Falling,
            RedHatBoyStateMachine::KnockedOut(_) => Phase::KnockedOut,
        }
    }

    pub fn knocked_out(&self) -> (r: bool)
        ensures
            r == (self@.phase == Phase::KnockedOut),
    {
        match self {
            RedHatBoyStateMachine::KnockedOut(_) => true,
            _ => false,
        }
    }
}

} // verus!
