//! The player character: its state machine together with its sprite atlas,
//! from which its on-screen box and its collision box follow.
use crate::draw::{DrawCommand, Texture};
use crate::error::GameError;
use crate::geometry::Rect;
use crate::red_hat_boy_machine::{step, Event, RedHatBoyStateMachine};
use crate::red_hat_boy_states::{
    animation_name, frame_limit, initial_context, view_of, BoyView, Phase, FALLING_FRAMES,
    IDLE_FRAMES, JUMPING_FRAMES, RUNNING_FRAMES, SLIDING_FRAMES,
};
use crate::sheet::{Cell, Sheet};
use vstd::prelude::*;
use vstd::string::StringExecFns;

verus! {

/// How far the collision box is inset from the sprite's left edge.
pub const X_OFFSET: i16 = 18;
/// How far the collision box is inset from the sprite's top edge.
pub const Y_OFFSET: i16 = 14;
/// How much narrower the collision box is than the sprite.
pub const WIDTH_OFFSET: i16 = 28;

pub open spec fn digit_char(d: int) -> char {
    if d == 0 {
        '0'
    } else if d == 1 {
        '1'
    } else if d == 2 {
        '2'
    } else if d == 3 {
        '3'
    } else if d == 4 {
        '4'
    } else if d == 5 {
        '5'
    } else if d == 6 {
        '6'
    } else if d == 7 {
        '7'
    } else if d == 8 {
        '8'
    } else {
        '9'
    }
}

/// The decimal digits of `n`.
pub open spec fn decimal(n: nat) -> Seq<char>
    decreases n,
{
    if n < 10 {
        seq![digit_char(n as int)]
    } else {
        decimal(n / 10).push(digit_char((n % 10) as int))
    }
}

/// The atlas key of the `n`-th picture of an animation: `"<name> (<n>).png"`.
pub open spec fn frame_key(name: Seq<char>, n: nat) -> Seq<char> {
    name + seq![' ', '('] + decimal(n) + seq![')', '.', 'p', 'n', 'g']
}

/// Each picture of an animation is shown for three frames.
pub open spec fn picture_number(frame: u8) -> nat {
    (frame / 3 + 1) as nat
}

/// The atlas holds, in bounds, every picture that a phase may show.
pub open spec fn covers_phase(sheet: Map<Seq<char>, Cell>, phase: Phase) -> bool {
    forall|frame: u8|
        frame <= frame_limit(phase) ==> {
            let key = #[trigger] frame_key(animation_name(phase), picture_number(frame));
            sheet.contains_key(key) && sheet[key].in_bounds()
        }
}

/// The atlas holds, in bounds, every picture of every phase.
pub open spec fn covers_all_phases(sheet: Map<Seq<char>, Cell>) -> bool {
    &&& covers_phase(sheet, Phase::Idle)
    &&& covers_phase(sheet, Phase::Running)
    &&& covers_phase(sheet, Phase::Sliding)
    &&& covers_phase(sheet, Phase::Jumping)
    &&& covers_phase(sheet, Phase::Falling)
    &&& covers_phase(sheet, Phase::KnockedOut)
}

fn digit_text(d: u8) -> (r: &'static str)
    requires
        d < 10,
    ensures
        r@ == seq![digit_char(d as int)],
{
    if d == 0 {
        proof { reveal_strlit("0"); }
        "0"
    } else if d == 1 {
        proof { reveal_strlit("1"); }
        "1"
    } else if d == 2 {
        proof { reveal_strlit("2"); }
        "2"
    } else if d == 3 {
        proof { reveal_strlit("3"); }
        "3"
    } else if d == 4 {
        proof { reveal_strlit("4"); }
        "4"
    } else if d == 5 {
        proof { reveal_strlit("5"); }
        "5"
    } else if d == 6 {
        proof { reveal_strlit("6"); }
        "6"
    } else if d == 7 {
        proof { reveal_strlit("7"); }
        "7"
    } else if d == 8 {
        proof { reveal_strlit("8"); }
        "8"
    } else {
        proof { reveal_strlit("9"); }
        "9"
    }
}

/// `n` written in decimal.
pub fn decimal_text(n: u8) -> (r: String)
    ensures
        r@ == decimal(n as nat),
    decreases n,
{
    if n < 10 {
        String::from_str(digit_text(n))
    } else {
        let mut text = decimal_text(n / 10);
        text.append(digit_text(n % 10));
        text
    }
}

/// The atlas key of the picture an animation shows at `frame`.
pub fn frame_key_text(name: &str, frame: u8) -> (r: String)
    ensures
        r@ == frame_key(name@, picture_number(frame)),
{
    let mut key = String::from_str(name);
    proof {
        reveal_strlit(" (");
        reveal_strlit(").png");
    }
    key.append(" (");
    let number = decimal_text(frame / 3 + 1);
    key.append(number.as_str());
    key.append(").png");
    key
}

/// Whether the atlas holds, in bounds, every picture an animation shows over
/// frames `0..=limit`.
fn covers_animation(sheet: &Sheet, name: &str, limit: u8) -> (r: bool)
    ensures
        r == forall|frame: u8|
            frame <= limit ==> {
                let key = #[trigger] frame_key(name@, picture_number(frame));
                sheet@.contains_key(key) && sheet@[key].in_bounds()
            },
{
    let mut frame: u8 = 0;
    while frame <= limit
        invariant
            forall|f: u8|
                f < frame ==> {
                    let key = #[trigger] frame_key(name@, picture_number(f));
                    sheet@.contains_key(key) && sheet@[key].in_bounds()
                },
        decreases 256 - frame,
    {
        let key = frame_key_text(name, frame);
        match sheet.cell(&key) {
            Some(cell) => {
                if !cell.is_in_bounds() {
                    return false;
                }
            },
            None => {
                return false;
            },
        }
        if frame == limit {
            return true;
        }
        frame = frame + 1;
    }
    true
}

/// Whether the atlas holds every picture that the character may show.
pub fn covers_all_animations(sheet: &Sheet) -> (r: bool)
    ensures
        r == covers_all_phases(sheet@),
{
    proof {
        reveal_strlit("Idle");
        reveal_strlit("Run");
        reveal_strlit("Slide");
        reveal_strlit("Jump");
        reveal_strlit("Dead");
    }
    let idle = covers_animation(sheet, "Idle", IDLE_FRAMES);
    let running = covers_animation(sheet, "Run", RUNNING_FRAMES);
    let sliding = covers_animation(sheet, "Slide", SLIDING_FRAMES);
    let jumping = covers_animation(sheet, "Jump", JUMPING_FRAMES);
    let falling = covers_animation(sheet, "Dead", FALLING_FRAMES);
    assert("Idle"@ =~= animation_name(Phase::Idle));
    assert("Run"@ =~= animation_name(Phase::Running));
    assert("Slide"@ =~= animation_name(Phase::Sliding));
    assert("Jump"@ =~= animation_name(Phase::Jumping));
    assert("Dead"@ =~= animation_name(Phase::Falling));
    assert("Dead"@ =~= animation_name(Phase::KnockedOut));
    idle && running && sliding && jumping && falling
}

/// The cell of the picture a character shows.
pub open spec fn sprite_of(b: BoyView, sheet: Map<Seq<char>, Cell>) -> Cell {
    sheet[frame_key(animation_name(b.phase), picture_number(b.context.frame))]
}

/// Where a character's sprite is drawn on screen.
pub open spec fn destination_of(b: BoyView, sheet: Map<Seq<char>, Cell>) -> Rect {
    let c = b.context;
    let sprite = sprite_of(b, sheet);
    Rect::new_spec(
        (c.position.x + sprite.sprite_source_size.x) as i16,
        (c.position.y + sprite.sprite_source_size.y) as i16,
        sprite.frame.w,
        sprite.frame.h,
    )
}

/// A character's collision box: its sprite box, inset to the visible body.
pub open spec fn collision_box(b: BoyView, sheet: Map<Seq<char>, Cell>) -> Rect {
    let d = destination_of(b, sheet);
    Rect::new_spec(
        (d.position.x + X_OFFSET) as i16,
        (d.position.y + Y_OFFSET) as i16,
        (d.width - WIDTH_OFFSET) as i16,
        (d.height - Y_OFFSET) as i16,
    )
}

/// The player character.
pub struct RedHatBoy {
    pub state_machine: RedHatBoyStateMachine,
    pub sprite_sheet: Sheet,
}

impl RedHatBoy {
    pub open spec fn wf(&self) -> bool {
        self.state_machine@.wf() && covers_all_phases(self.sprite_sheet@)
    }

    /// The cell of the picture the character shows now.
    pub open spec fn sprite(&self) -> Cell {
        sprite_of(self.state_machine@, self.sprite_sheet@)
    }

    pub open spec fn spec_destination_box(&self) -> Rect {
        destination_of(self.state_machine@, self.sprite_sheet@)
    }

    pub open spec fn spec_bounding_box(&self) -> Rect {
        collision_box(self.state_machine@, self.sprite_sheet@)
    }

    /// A fresh idle character drawn from `sheet`, which must hold every
    /// picture of every animation.
    pub fn new(sheet: Sheet) -> (r: Result<RedHatBoy, GameError>)
        ensures
            covers_all_phases(sheet@) <==> r is Ok,
            r matches Ok(boy) ==> {
                &&& boy.wf()
                &&& boy.state_machine@ == view_of(Phase::Idle, initial_context())
                &&& boy.sprite_sheet@ == sheet@
            },
            r matches Err(e) ==> e == GameError::IncompleteSheet,
    {
        if covers_all_animations(&sheet) {
            Ok(RedHatBoy { state_machine: RedHatBoyStateMachine::new(), sprite_sheet: sheet })
        } else {
            Err(GameError::IncompleteSheet)
        }
    }

    /// How fast the character runs to the right.
    pub fn walking_speed(&self) -> (r: i16)
        ensures
            r == self.state_machine@.context.velocity.x,
    {
        self.state_machine.context().velocity.x
    }

    /// The atlas key of the picture the character shows now.
    pub fn frame_name(&self) -> (r: String)
        ensures
            r@ == frame_key(animation_name(self.state_machine@.phase), picture_number(self.state_machine@.context.frame)),
    {
        frame_key_text(self.state_machine.frame_name(), self.state_machine.context().frame)
    }

    pub fn current_sprite(&self) -> (r: Option<Cell>)
        requires
            self.wf(),
        ensures
            r == Some(self.sprite()),
    {
        let key = self.frame_name();
        let ghost b = self.state_machine@;
        assert(covers_phase(self.sprite_sheet@, b.phase));
        assert(self.sprite_sheet@.contains_key(frame_key(animation_name(b.phase), picture_number(b.context.frame))));
        self.sprite_sheet.cell(&key)
    }

    pub fn destination_box(&self) -> (r: Rect)
        requires
            self.wf(),
        ensures
            r == self.spec_destination_box(),
            self.sprite().in_bounds(),
    {
        let sprite = self.current_sprite().unwrap();
        let ghost b = self.state_machine@;
        assert(covers_phase(self.sprite_sheet@, b.phase));
        assert(sprite.in_bounds());
        let context = self.state_machine.context();
        Rect::new_from_x_y(
            context.position.x + sprite.sprite_source_size.x,
            context.position.y + sprite.sprite_source_size.y,
            sprite.frame.w,
            sprite.frame.h,
        )
    }

    pub fn bounding_box(&self) -> (r: Rect)
        requires
            self.wf(),
        ensures
            r == self.spec_bounding_box(),
            r.fits(),
    {
        let bounding_box = self.destination_box();
        Rect::new_from_x_y(
            bounding_box.x() + X_OFFSET,
            bounding_box.y() + Y_OFFSET,
            bounding_box.width - WIDTH_OFFSET,
            bounding_box.height - Y_OFFSET,
        )
    }

    pub fn velocity_y(&self) -> (r: i16)
        ensures
            r == self.state_machine@.context.velocity.y,
    {
        self.state_machine.context().velocity.y
    }

    pub fn pos_y(&self) -> (r: i16)
        ensures
            r == self.state_machine@.context.position.y,
    {
        self.state_machine.context().position.y
    }

    /// What drawing the character asks for.
    pub open spec fn spec_commands(&self) -> Seq<DrawCommand> {
        seq![
            DrawCommand::Sprite {
                texture: Texture::Boy,
                source: Rect::new_spec(self.sprite().frame.x, self.sprite().frame.y, self.sprite().frame.w, self.sprite().frame.h),
                destination: self.spec_destination_box(),
            },
            DrawCommand::Outline { rect: self.spec_bounding_box() },
        ]
    }

    /// The current picture, drawn at the character's place, and its collision box.
    pub fn draw(&self) -> (r: Vec<DrawCommand>)
        requires
            self.wf(),
        ensures
            r@ == self.spec_commands(),
    {
        let destination = self.destination_box();
        let sprite = self.current_sprite().unwrap();
        let mut commands = Vec::new();
        commands.push(
            DrawCommand::Sprite {
                texture: Texture::Boy,
                source: Rect::new_from_x_y(sprite.frame.x, sprite.frame.y, sprite.frame.w, sprite.frame.h),
                destination,
            },
        );
        commands.push(DrawCommand::Outline { rect: self.bounding_box() });
        commands
    }

    /// Hand an event to the state machine.
    fn apply(&mut self, event: Event)
        requires
            old(self).wf(),
            event.admissible(),
        ensures
            final(self).wf(),
            final(self).state_machine@ == step(old(self).state_machine@, event),
            final(self).sprite_sheet@ == old(self).sprite_sheet@,
    {
        self.state_machine = self.state_machine.transition(event);
    }

    pub fn update(&mut self)
        requires
            old(self).wf(),
        ensures
            final(self).wf(),
            final(self).state_machine@ == step(old(self).state_machine@, Event::Update),
            final(self).sprite_sheet@ == old(self).sprite_sheet@,
    {
        self.apply(Event::Update);
    }

    pub fn run_right(&mut self)
        requires
            old(self).wf(),
        ensures
            final(self).wf(),
            final(self).state_machine@ == step(old(self).state_machine@, Event::Run),
            final(self).sprite_sheet@ == old(self).sprite_sheet@,
    {
        self.apply(Event::Run);
    }

    pub fn knock_out(&mut self)
        requires
            old(self).wf(),
        ensures
            final(self).wf(),
            final(self).state_machine@ == step(old(self).state_machine@, Event::KnockOut),
            final(self).sprite_sheet@ == old(self).sprite_sheet@,
    {
        self.apply(Event::KnockOut);
    }

    pub fn slide(&mut self)
        requires
            old(self).wf(),
        ensures
            final(self).wf(),
            final(self).state_machine@ == step(old(self).state_machine@, Event::Slide),
            final(self).sprite_sheet@ == old(self).sprite_sheet@,
    {
        self.apply(Event::Slide);
    }

    pub fn jump(&mut self)
        requires
            old(self).wf(),
        ensures
            final(self).wf(),
            final(self).state_machine@ == step(old(self).state_machine@, Event::Jump),
            final(self).sprite_sheet@ == old(self).sprite_sheet@,
    {
        self.apply(Event::Jump);
    }

    pub fn land_on(&mut self, y: i16)
        requires
            old(self).wf(),
            Event::Land(y).admissible(),
        ensures
            final(self).wf(),
            final(self).state_machine@ == step(old(self).state_machine@, Event::Land(y)),
            final(self).sprite_sheet@ == old(self).sprite_sheet@,
    {
        self.apply(Event::Land(y));
    }

    pub fn knocked_out(&self) -> (r: bool)
        ensures
            r == (self.state_machine@.phase == Phase::KnockedOut),
    {
        self.state_machine.knocked_out()
    }

    /// Whether a jump sound is owed; it is handed out once.
    pub fn take_jump_sound(&mut self) -> (r: bool)
        requires
            old(self).wf(),
        ensures
            final(self).wf(),
            r == old(self).state_machine@.context.jump_sound_pending,
            final(self).state_machine@.phase == old(self).state_machine@.phase,
            final(self).state_machine@.context == (crate::red_hat_boy_states::RedHatBoyContext {
                jump_sound_pending: false,
                ..old(self).state_machine@.context
            }),
            final(self).sprite_sheet@ == old(self).sprite_sheet@,
    {
        let (machine, pending) = self.state_machine.take_jump_sound();
        self.state_machine = machine;
        pending
    }

    /// A fresh idle character at the start, keeping the atlas.
    pub fn reset(boy: Self) -> (r: Self)
        requires
            boy.wf(),
        ensures
            r.wf(),
            r.state_machine@ == view_of(Phase::Idle, initial_context()),
            r.sprite_sheet@ == boy.sprite_sheet@,
    {
        RedHatBoy { state_machine: RedHatBoyStateMachine::new(), sprite_sheet: boy.sprite_sheet }
    }
}

} // verus!
