//! The game around the walk: ready, walking, game over, and ready again.
use crate::draw::DrawCommand;
use crate::error::GameError;
use crate::geometry::Rect;
use crate::keys::KeyState;
use crate::obstacle::Obstacle;
use crate::red_hat_boy_machine::{step, Event};
use crate::red_hat_boy_states::{Phase, HEIGHT};
use crate::segment::max_right;
use crate::walk::{after_input, walked, Walk, TIMELINE_MINIMUM};
use vstd::prelude::*;

verus! {

/// What the game asks of the world outside it.
#[derive(Clone, Copy, Debug, PartialEq, Eq, Structural)]
pub enum Action {
    /// Play the jump sound.
    PlayJumpSound,
    /// Show the new-game button and start listening for its clicks.
    ShowNewGameButton,
    /// Hide the new-game button.
    HideNewGameButton,
}

pub open spec fn arrow_right() -> Seq<char> {
    seq!['A', 'r', 'r', 'o', 'w', 'R', 'i', 'g', 'h', 't']
}

pub open spec fn arrow_down() -> Seq<char> {
    seq!['A', 'r', 'r', 'o', 'w', 'D', 'o', 'w', 'n']
}

pub open spec fn space_bar() -> Seq<char> {
    seq!['S', 'p', 'a', 'c', 'e']
}

/// The phase of the game.
#[derive(Clone, Copy, Debug, PartialEq, Eq, Structural)]
pub enum GamePhase {
    Ready,
    Walking,
    GameOver,
}

pub struct Ready;

pub struct Walking;

pub struct GameOver;

/// The game in phase `T`, owning its walk.
pub struct WalkTheDogState<T> {
    _state: T,
    walk: Walk,
}

impl<T> WalkTheDogState<T> {
    pub closed spec fn spec_walk(&self) -> Walk {
        self.walk
    }

    pub fn walk(&self) -> (r: &Walk)
        ensures
            *r == self.spec_walk(),
    {
        &self.walk
    }

    pub fn draw(&self) -> (r: Vec<DrawCommand>)
        requires
            self.spec_walk().wf(),
        ensures
            r@ == self.spec_walk().spec_commands(),
    {
        self.walk.draw()
    }
}

/// Outcome of a ready tick: the character started running, or not yet.
pub enum ReadyEndState {
    Complete(WalkTheDogState<Walking>),
    Continue(WalkTheDogState<Ready>),
}

/// Outcome of a walking tick: the character was knocked out, or walks on.
pub enum WalkingEndState {
    Complete(WalkTheDogState<GameOver>),
    Continue(WalkTheDogState<Walking>),
}

/// Outcome of a game-over tick: a new game was asked for, or not yet.
pub enum GameOverEndState {
    Complete(WalkTheDogState<Ready>),
    Continue(WalkTheDogState<GameOver>),
}

/// `new` is `old` but for the character, whose state is `b`.
pub open spec fn walk_with_boy(old: Walk, new: Walk, b: crate::red_hat_boy_states::BoyView) -> bool {
    &&& new.boy.state_machine@ == b
    &&& new.boy.sprite_sheet@ == old.boy.sprite_sheet@
    &&& new.backgrounds == old.backgrounds
    &&& new.obstacles@ == old.obstacles@
    &&& new.obstacle_sheet@ == old.obstacle_sheet@
    &&& new.stone == old.stone
    &&& new.timeline == old.timeline
}

/// `new` is a fresh start that keeps the images and atlases of `old`.
pub open spec fn restarted(old: Walk, new: Walk) -> bool {
    &&& new.is_fresh()
    &&& new.boy.sprite_sheet@ == old.boy.sprite_sheet@
    &&& new.backgrounds == old.backgrounds
    &&& new.obstacle_sheet@ == old.obstacle_sheet@
    &&& new.stone == old.stone
}

impl WalkTheDogState<Ready> {
    pub fn new(walk: Walk) -> (r: WalkTheDogState<Ready>)
        ensures
            r.spec_walk() == walk,
    {
        WalkTheDogState { _state: Ready, walk }
    }

    /// The idle character animates; holding right starts the walk.
    pub fn update(self, keystate: &KeyState) -> (r: ReadyEndState)
        requires
            self.spec_walk().wf(),
        ensures
            match r {
                ReadyEndState::Complete(s) => {
                    &&& keystate@.contains(arrow_right())
                    &&& s.spec_walk().wf()
                    &&& walk_with_boy(self.spec_walk(), s.spec_walk(), step(step(self.spec_walk().boy.state_machine@, Event::Update), Event::Run))
                },
                ReadyEndState::Continue(s) => {
                    &&& !keystate@.contains(arrow_right())
                    &&& s.spec_walk().wf()
                    &&& walk_with_boy(self.spec_walk(), s.spec_walk(), step(self.spec_walk().boy.state_machine@, Event::Update))
                },
            },
    {
        let mut walk = self.walk;
        walk.boy.update();
        proof {
            reveal_strlit("ArrowRight");
            assert("ArrowRight"@ =~= arrow_right());
        }
        if keystate.is_pressed("ArrowRight") {
            ReadyEndState::Complete(WalkTheDogState { _state: Ready, walk }.start_running())
        } else {
            ReadyEndState::Continue(WalkTheDogState { _state: Ready, walk })
        }
    }

    pub fn start_running(self) -> (r: WalkTheDogState<Walking>)
        requires
            self.spec_walk().wf(),
        ensures
            r.spec_walk().wf(),
            walk_with_boy(self.spec_walk(), r.spec_walk(), step(self.spec_walk().boy.state_machine@, Event::Run)),
    {
        let mut state = self;
        state.run_right();
        WalkTheDogState { _state: Walking, walk: state.walk }
    }

    pub fn run_right(&mut self)
        requires
            old(self).spec_walk().wf(),
        ensures
            final(self).spec_walk().wf(),
            walk_with_boy(old(self).spec_walk(), final(self).spec_walk(), step(old(self).spec_walk().boy.state_machine@, Event::Run)),
    {
        self.walk.boy.run_right();
    }
}

impl WalkTheDogState<Walking> {
    /// One tick of walking: input, physics, scrolling, pruning, collisions,
    /// generation; a knocked-out character ends the game. Also tells whether
    /// a jump sound is owed.
    pub fn update(self, keystate: &KeyState) -> (r: (WalkingEndState, bool))
        requires
            self.spec_walk().wf(),
        ensures
            ({
                let right = keystate@.contains(arrow_right());
                let down = keystate@.contains(arrow_down());
                let space = keystate@.contains(space_bar());
                &&& r.1 == after_input(self.spec_walk().boy.state_machine@, right, down, space).context.jump_sound_pending
                &&& match r.0 {
                    WalkingEndState::Complete(s) => {
                        &&& s.spec_walk().wf()
                        &&& s.spec_walk().boy.state_machine@.phase == Phase::KnockedOut
                        &&& exists|moved: Seq<Obstacle>| #[trigger] walked(self.spec_walk(), moved, s.spec_walk(), right, down, space)
                    },
                    WalkingEndState::Continue(s) => {
                        &&& s.spec_walk().wf()
                        &&& s.spec_walk().boy.state_machine@.phase != Phase::KnockedOut
                        &&& exists|moved: Seq<Obstacle>| #[trigger] walked(self.spec_walk(), moved, s.spec_walk(), right, down, space)
                    },
                }
            }),
    {
        let ghost old_walk = self.walk;
        let mut walk = self.walk;
        proof {
            reveal_strlit("ArrowRight");
            reveal_strlit("ArrowDown");
            reveal_strlit("Space");
            assert("ArrowRight"@ =~= arrow_right());
            assert("ArrowDown"@ =~= arrow_down());
            assert("Space"@ =~= space_bar());
        }
        if keystate.is_pressed("ArrowDown") {
            walk.boy.slide();
        }
        if keystate.is_pressed("ArrowRight") {
            walk.boy.run_right();
        }
        if keystate.is_pressed("Space") {
            walk.boy.jump();
        }
        walk.boy.update();
        let ghost right = keystate@.contains(arrow_right());
        let ghost down = keystate@.contains(arrow_down());
        let ghost space = keystate@.contains(space_bar());
        assert(walk.boy.state_machine@ == after_input(old_walk.boy.state_machine@, right, down, space));
        let jump_sound = walk.boy.take_jump_sound();
        assert(walk.boy.state_machine@ == crate::walk::without_sound(after_input(old_walk.boy.state_machine@, right, down, space)));
        assert(walk.obstacles@ == old_walk.obstacles@);

        let velocity = walk.velocity();
        walk.scroll_backgrounds(velocity);
        walk.remove_passed_obstacles();
        walk.move_obstacles(velocity);
        let ghost moved = walk.obstacles@;
        assert((walk.backgrounds@[0], walk.backgrounds@[1]) == crate::walk::scrolled(old_walk.backgrounds@[0], old_walk.backgrounds@[1], velocity as int));
        assert(moved.len() == crate::walk::on_screen(old_walk.obstacles@).len());

        // Generate new obstacles
        if walk.timeline < TIMELINE_MINIMUM {
            walk.generate_next_segment();
            assert(walk.obstacles@.subrange(0, moved.len() as int) == moved);
            assert(walk.timeline == max_right(walk.obstacles@.subrange(moved.len() as int, walk.obstacles@.len() as int)));
            assert(walk.stone == old_walk.stone);
            assert(walk.boy.sprite_sheet@ == old_walk.boy.sprite_sheet@);
            assert(walk.obstacle_sheet@ == old_walk.obstacle_sheet@);
        } else {
            walk.timeline = walk.timeline + velocity;
            assert(walk.obstacles@ == moved);
        }
        assert(walk.boy.state_machine@ == crate::walk::collide_all(moved, crate::walk::without_sound(after_input(old_walk.boy.state_machine@, right, down, space)), old_walk.boy.sprite_sheet@));
        assert(forall|j: int| 0 <= j < moved.len() ==> #[trigger] moved[j].collision_boxes_moved(&crate::walk::on_screen(old_walk.obstacles@)[j], velocity as int));
        assert(walked(old_walk, moved, walk, right, down, space));

        if walk.knocked_out() {
            (WalkingEndState::Complete(WalkTheDogState { _state: Walking, walk }.end_game()), jump_sound)
        } else {
            (WalkingEndState::Continue(WalkTheDogState { _state: Walking, walk }), jump_sound)
        }
    }

    /// End the game: the walk stays as it ended, waiting for a new game.
    pub fn end_game(self) -> (r: WalkTheDogState<GameOver>)
        ensures
            r.spec_walk() == self.spec_walk(),
    {
        WalkTheDogState { _state: GameOver, walk: self.walk }
    }
}

impl WalkTheDogState<GameOver> {
    /// Wait for the new-game button; `new_game_pressed` tells whether it was clicked.
    pub fn update(self, new_game_pressed: bool) -> (r: GameOverEndState)
        requires
            self.spec_walk().wf(),
        ensures
            match r {
                GameOverEndState::Complete(s) => {
                    &&& new_game_pressed
                    &&& s.spec_walk().wf()
                    &&& restarted(self.spec_walk(), s.spec_walk())
                },
                GameOverEndState::Continue(s) => !new_game_pressed && s.spec_walk() == self.spec_walk(),
            },
    {
        if new_game_pressed {
            GameOverEndState::Complete(self.new_game())
        } else {
            GameOverEndState::Continue(self)
        }
    }

    /// Start a new game: the walk starts over, keeping the loaded assets.
    pub fn new_game(self) -> (r: WalkTheDogState<Ready>)
        requires
            self.spec_walk().wf(),
        ensures
            r.spec_walk().wf(),
            restarted(self.spec_walk(), r.spec_walk()),
    {
        WalkTheDogState { _state: Ready, walk: Walk::reset(self.walk) }
    }
}

/// The game in one of its phases.
pub enum WalkTheDogStateMachine {
    Ready(WalkTheDogState<Ready>),
    Walking(WalkTheDogState<Walking>),
    GameOver(WalkTheDogState<GameOver>),
}

impl From<ReadyEndState> for WalkTheDogStateMachine {
    fn from(state: ReadyEndState) -> (r: Self)
        ensures
            r == (match state {
                ReadyEndState::Complete(s) => WalkTheDogStateMachine::Walking(s),
                ReadyEndState::Continue(s) => WalkTheDogStateMachine::Ready(s),
            }),
    {
        match state {
            ReadyEndState::Complete(walking) => WalkTheDogStateMachine::Walking(walking),
            ReadyEndState::Continue(ready) => WalkTheDogStateMachine::Ready(ready),
        }
    }
}

impl vstd::std_specs::convert::FromSpecImpl<ReadyEndState> for WalkTheDogStateMachine {
    open spec fn obeys_from_spec() -> bool {
        true
    }

    open spec fn from_spec(state: ReadyEndState) -> Self {
        match state {
            ReadyEndState::Complete(s) => WalkTheDogStateMachine::Walking(s),
            ReadyEndState::Continue(s) => WalkTheDogStateMachine::Ready(s),
        }
    }
}

impl From<WalkingEndState> for WalkTheDogStateMachine {
    fn from(state: WalkingEndState) -> (r: Self)
        ensures
            r == (match state {
                WalkingEndState::Complete(s) => WalkTheDogStateMachine::GameOver(s),
                WalkingEndState::Continue(s) => WalkTheDogStateMachine::Walking(s),
            }),
    {
        match state {
            WalkingEndState::Complete(game_over_state) => WalkTheDogStateMachine::GameOver(game_over_state),
            WalkingEndState::Continue(walking_state) => WalkTheDogStateMachine::Walking(walking_state),
        }
    }
}

impl vstd::std_specs::convert::FromSpecImpl<WalkingEndState> for WalkTheDogStateMachine {
    open spec fn obeys_from_spec() -> bool {
        true
    }

    open spec fn from_spec(state: WalkingEndState) -> Self {
        match state {
            WalkingEndState::Complete(s) => WalkTheDogStateMachine::GameOver(s),
            WalkingEndState::Continue(s) => WalkTheDogStateMachine::Walking(s),
        }
    }
}

impl From<GameOverEndState> for WalkTheDogStateMachine {
    fn from(state: GameOverEndState) -> (r: Self)
        ensures
            r == (match state {
                GameOverEndState::Complete(s) => WalkTheDogStateMachine::Ready(s),
                GameOverEndState::Continue(s) => WalkTheDogStateMachine::GameOver(s),
            }),
    {
        match state {
            GameOverEndState::Complete(new_game_state) => WalkTheDogStateMachine::Ready(new_game_state),
            GameOverEndState::Continue(game_over_state) => WalkTheDogStateMachine::GameOver(game_over_state),
        }
    }
}

impl vstd::std_specs::convert::FromSpecImpl<GameOverEndState> for WalkTheDogStateMachine {
    open spec fn obeys_from_spec() -> bool {
        true
    }

    open spec fn from_spec(state: GameOverEndState) -> Self {
        match state {
            GameOverEndState::Complete(s) => WalkTheDogStateMachine::Ready(s),
            GameOverEndState::Continue(s) => WalkTheDogStateMachine::GameOver(s),
        }
    }
}

/// One tick of the game takes `old` to `new`, asking for `actions`; `keys`
/// are the keys held and `new_game_pressed` tells whether the new-game
/// button was clicked.
pub open spec fn game_step(
    old: WalkTheDogStateMachine,
    new: WalkTheDogStateMachine,
    keys: Set<Seq<char>>,
    new_game_pressed: bool,
    actions: Seq<Action>,
) -> bool {
    let right = keys.contains(arrow_right());
    let down = keys.contains(arrow_down());
    let space = keys.contains(space_bar());
    let w = old.spec_walk();
    &&& new.spec_walk().wf()
    &&& match old.phase() {
        GamePhase::Ready => {
            let b = step(w.boy.state_machine@, Event::Update);
            &&& actions == Seq::<Action>::empty()
            &&& new.phase() == if right { GamePhase::Walking } else { GamePhase::Ready }
            &&& walk_with_boy(w, new.spec_walk(), if right { step(b, Event::Run) } else { b })
        },
        GamePhase::Walking => {
            let sound = after_input(w.boy.state_machine@, right, down, space).context.jump_sound_pending;
            let sounds = if sound { seq![Action::PlayJumpSound] } else { Seq::<Action>::empty() };
            if new.phase() == GamePhase::GameOver {
                &&& actions == sounds.push(Action::ShowNewGameButton)
                &&& new.spec_walk().boy.state_machine@.phase == Phase::KnockedOut
                &&& exists|moved: Seq<Obstacle>| #[trigger] walked(w, moved, new.spec_walk(), right, down, space)
            } else {
                &&& actions == sounds
                &&& new.phase() == GamePhase::Walking
                &&& new.spec_walk().boy.state_machine@.phase != Phase::KnockedOut
                &&& exists|moved: Seq<Obstacle>| #[trigger] walked(w, moved, new.spec_walk(), right, down, space)
            }
        },
        GamePhase::GameOver => if new_game_pressed {
            &&& new.phase() == GamePhase::Ready
            &&& restarted(w, new.spec_walk())
            &&& actions == seq![Action::HideNewGameButton]
        } else {
            &&& new.phase() == GamePhase::GameOver
            &&& new.spec_walk() == w
            &&& actions == Seq::<Action>::empty()
        },
    }
}

impl WalkTheDogStateMachine {
    pub open spec fn phase(&self) -> GamePhase {
        match self {
            WalkTheDogStateMachine::Ready(_) => GamePhase::Ready,
            WalkTheDogStateMachine::Walking(_) => GamePhase::Walking,
            WalkTheDogStateMachine::GameOver(_) => GamePhase::GameOver,
        }
    }

    pub open spec fn spec_walk(&self) -> Walk {
        match self {
            WalkTheDogStateMachine::Ready(s) => s.spec_walk(),
            WalkTheDogStateMachine::Walking(s) => s.spec_walk(),
            WalkTheDogStateMachine::GameOver(s) => s.spec_walk(),
        }
    }

    pub fn new(walk: Walk) -> (r: Self)
        ensures
            r.phase() == GamePhase::Ready,
            r.spec_walk() == walk,
    {
        WalkTheDogStateMachine::Ready(WalkTheDogState::new(walk))
    }

    pub fn phase_of(&self) -> (r: GamePhase)
        ensures
            r == self.phase(),
    {
        match self {
            WalkTheDogStateMachine::Ready(_) => GamePhase::Ready,
            WalkTheDogStateMachine::Walking(_) => GamePhase::Walking,
            WalkTheDogStateMachine::GameOver(_) => GamePhase::GameOver,
        }
    }

    pub fn walk(&self) -> (r: &Walk)
        ensures
            *r == self.spec_walk(),
    {
        match self {
            WalkTheDogStateMachine::Ready(s) => s.walk(),
            WalkTheDogStateMachine::Walking(s) => s.walk(),
            WalkTheDogStateMachine::GameOver(s) => s.walk(),
        }
    }

    /// One tick of the game, with the actions it asks for.
    pub fn update(self, keystate: &KeyState, new_game_pressed: bool) -> (r: (Self, Vec<Action>))
        requires
            self.spec_walk().wf(),
        ensures
            game_step(self, r.0, keystate@, new_game_pressed, r.1@),
    {
        let mut actions: Vec<Action> = Vec::new();
        let machine: WalkTheDogStateMachine = match self {
            WalkTheDogStateMachine::Ready(state) => state.update(keystate).into(),
            WalkTheDogStateMachine::Walking(state) => {
                let (end_state, jump_sound) = state.update(keystate);
                if jump_sound {
                    actions.push(Action::PlayJumpSound);
                }
                if let WalkingEndState::Complete(_) = &end_state {
                    actions.push(Action::ShowNewGameButton);
                }
                end_state.into()
            },
            WalkTheDogStateMachine::GameOver(state) => {
                let end_state = state.update(new_game_pressed);
                if let GameOverEndState::Complete(_) = &end_state {
                    actions.push(Action::HideNewGameButton);
                }
                end_state.into()
            },
        };
        proof {
            if self.phase() == GamePhase::Walking {
                assert(actions@ =~= (if after_input(self.spec_walk().boy.state_machine@, keystate@.contains(arrow_right()), keystate@.contains(arrow_down()), keystate@.contains(space_bar())).context.jump_sound_pending { seq![Action::PlayJumpSound] } else { Seq::<Action>::empty() }) + (if machine.phase() == GamePhase::GameOver { seq![Action::ShowNewGameButton] } else { Seq::<Action>::empty() }));
            }
        }
        (machine, actions)
    }

    pub fn draw(&self) -> (r: Vec<DrawCommand>)
        requires
            self.spec_walk().wf(),
        ensures
            r@ == self.spec_walk().spec_commands(),
    {
        match self {
            WalkTheDogStateMachine::Ready(state) => state.draw(),
            WalkTheDogStateMachine::Walking(state) => state.draw(),
            WalkTheDogStateMachine::GameOver(state) => state.draw(),
        }
    }
}

/// A walk that ends with the character knocked out keeps it knocked out
/// while the game is over; a click on the new-game button then leaves a
/// ready game whose walk is a fresh start: the character idle at its
/// starting place, standing still at frame 0, and the first segment at
/// offset 0, with the images and atlases kept.
pub proof fn lemma_new_game_starts_fresh(
    walking: WalkTheDogStateMachine,
    over: WalkTheDogStateMachine,
    ready: WalkTheDogStateMachine,
    keys: Set<Seq<char>>,
    later_keys: Set<Seq<char>>,
    first_actions: Seq<Action>,
    second_actions: Seq<Action>,
)
    requires
        walking.phase() == GamePhase::Walking,
        game_step(walking, over, keys, false, first_actions),
        over.phase() == GamePhase::GameOver,
        game_step(over, ready, later_keys, true, second_actions),
    ensures
        over.spec_walk().boy.state_machine@.phase == Phase::KnockedOut,
        ready.phase() == GamePhase::Ready,
        ready.spec_walk().is_fresh(),
        ready.spec_walk().boy.state_machine@.context.frame == 0,
        ready.spec_walk().boy.state_machine@.context.velocity == (crate::geometry::Point { x: 0, y: 0 }),
        ready.spec_walk().boy.state_machine@.context.position == (crate::geometry::Point {
            x: crate::red_hat_boy_states::STARTING_POINT,
            y: crate::red_hat_boy_states::FLOOR,
        }),
        ready.spec_walk().stone == walking.spec_walk().stone,
        ready.spec_walk().obstacle_sheet@ == walking.spec_walk().obstacle_sheet@,
        second_actions == seq![Action::HideNewGameButton],
{
}

/// The game: not set up until its assets are loaded.
pub struct WalkTheDog {
    machine: Option<WalkTheDogStateMachine>,
}

impl WalkTheDog {
    pub closed spec fn spec_machine(&self) -> Option<WalkTheDogStateMachine> {
        self.machine
    }

    pub open spec fn wf(&self) -> bool {
        self.spec_machine() matches Some(m) ==> m.spec_walk().wf()
    }

    pub fn new() -> (r: Self)
        ensures
            r.spec_machine() is None,
    {
        WalkTheDog { machine: None }
    }

    pub fn is_initialized(&self) -> (r: bool)
        ensures
            r == self.spec_machine() is Some,
    {
        self.machine.is_some()
    }

    /// A game ready to start on `walk`; a game set up already stays as it is.
    pub fn initialize(&self, walk: Walk) -> (r: Result<WalkTheDog, GameError>)
        ensures
            r is Ok <==> self.spec_machine() is None,
            self.spec_machine() is Some <==> r == Err::<WalkTheDog, GameError>(GameError::AlreadyInitialized),
            r matches Ok(game) ==> game.spec_machine() matches Some(m) && m.phase() == GamePhase::Ready && m.spec_walk() == walk,
    {
        match self.machine {
            None => Ok(WalkTheDog { machine: Some(WalkTheDogStateMachine::new(walk)) }),
            Some(_) => Err(GameError::AlreadyInitialized),
        }
    }

    /// One tick: the actions it asks for, for the world outside to carry out.
    pub fn update(&mut self, keystate: &KeyState, new_game_pressed: bool) -> (r: Vec<Action>)
        requires
            old(self).spec_machine() is Some,
            old(self).wf(),
        ensures
            final(self).wf(),
            final(self).spec_machine() is Some,
            game_step(old(self).spec_machine()->Some_0, final(self).spec_machine()->Some_0, keystate@, new_game_pressed, r@),
    {
        let machine = self.machine.take();
        match machine {
            Some(machine) => {
                let (machine, actions) = machine.update(keystate, new_game_pressed);
                self.machine = Some(machine);
                actions
            },
            None => Vec::new(),
        }
    }

    /// Clear the screen, then draw the walk.
    pub fn draw(&self) -> (r: Vec<DrawCommand>)
        requires
            self.wf(),
        ensures
            r@ == seq![DrawCommand::Clear { rect: Rect::new_spec(0, 0, HEIGHT, HEIGHT) }] + match self.spec_machine() {
                Some(m) => m.spec_walk().spec_commands(),
                None => Seq::empty(),
            },
    {
        let mut commands: Vec<DrawCommand> = Vec::new();
        commands.push(DrawCommand::Clear { rect: Rect::new_from_x_y(0, 0, HEIGHT, HEIGHT) });
        match &self.machine {
            Some(machine) => {
                let mut walk_commands = machine.draw();
                commands.append(&mut walk_commands);
            },
            None => {},
        }
        commands
    }
}

} // verus!
