use walk_the_dog::red_hat_boy_states::{FLOOR, JUMP_SPEED, MAX_VELOCITY, RUNNING_SPEED, SLIDING_FRAMES, STARTING_POINT};
use walk_the_dog::{Event, Phase, Point, RedHatBoyContext, RedHatBoyState, RedHatBoyStateMachine};

fn running() -> RedHatBoyStateMachine {
    RedHatBoyStateMachine::new().transition(Event::Run)
}

#[test]
fn fresh_character_is_idle_at_start() {
    let machine = RedHatBoyStateMachine::new();
    assert_eq!(machine.phase(), Phase::Idle);
    let context = *machine.context();
    assert_eq!(context.frame, 0);
    assert_eq!(context.position, Point { x: STARTING_POINT, y: FLOOR });
    assert_eq!(context.velocity, Point { x: 0, y: 0 });
    assert_eq!(machine.frame_name(), "Idle");
}

#[test]
fn knock_out_on_idle_is_ignored() {
    let machine = RedHatBoyStateMachine::new();
    let before = *machine.context();
    let after = machine.transition(Event::KnockOut);
    assert_eq!(after.phase(), Phase::Idle);
    assert_eq!(*after.context(), before);
}

#[test]
fn unlisted_events_leave_state_unchanged() {
    let idle = RedHatBoyStateMachine::new();
    for event in [Event::Slide, Event::Jump, Event::KnockOut, Event::Land(500)] {
        let after = idle.transition(event);
        assert_eq!(after.phase(), Phase::Idle);
        assert_eq!(*after.context(), *idle.context());
    }
    let run = running();
    let again = run.transition(Event::Run);
    assert_eq!(again.phase(), Phase::Running);
    assert_eq!(again.context().velocity.x, RUNNING_SPEED);
}

#[test]
fn run_jump_land_resets_frame_each_time() {
    let mut machine = RedHatBoyStateMachine::new();
    for _ in 0..5 {
        machine = machine.update();
    }
    assert_eq!(machine.context().frame, 5);
    machine = machine.transition(Event::Run);
    assert_eq!(machine.phase(), Phase::Running);
    assert_eq!(machine.context().frame, 0);
    assert_eq!(machine.context().velocity.x, RUNNING_SPEED);
    machine = machine.update().update();
    assert_eq!(machine.context().frame, 2);
    machine = machine.transition(Event::Jump);
    assert_eq!(machine.phase(), Phase::Jumping);
    assert_eq!(machine.context().frame, 0);
    assert_eq!(machine.context().velocity.y, JUMP_SPEED);
    assert!(machine.context().jump_sound_pending);
    let mut ticks = 0;
    while machine.phase() == Phase::Jumping {
        machine = machine.update();
        ticks += 1;
        assert!(ticks < 100);
    }
    assert_eq!(machine.phase(), Phase::Running);
    assert_eq!(machine.context().frame, 0);
    assert_eq!(machine.context().position.y, FLOOR);
    // rising from -25 and falling at most at 20 per tick, the floor is back after 52 ticks
    assert_eq!(ticks, 52);
}

#[test]
fn slide_lasts_sliding_frames_updates() {
    let mut machine = running().transition(Event::Slide);
    assert_eq!(machine.phase(), Phase::Sliding);
    assert_eq!(machine.frame_name(), "Slide");
    for _ in 0..(SLIDING_FRAMES - 1) {
        machine = machine.update();
    }
    assert_eq!(machine.phase(), Phase::Sliding);
    assert_eq!(machine.context().frame, SLIDING_FRAMES - 1);
    machine = machine.update();
    assert_eq!(machine.phase(), Phase::Running);
    assert_eq!(machine.context().frame, 0);
}

#[test]
fn knock_out_falls_then_is_knocked_out() {
    let mut machine = running().transition(Event::KnockOut);
    assert_eq!(machine.phase(), Phase::Falling);
    assert_eq!(machine.context().velocity.x, 0);
    assert_eq!(machine.frame_name(), "Dead");
    for _ in 0..28 {
        machine = machine.update();
    }
    assert_eq!(machine.phase(), Phase::Falling);
    machine = machine.update();
    assert_eq!(machine.phase(), Phase::KnockedOut);
    assert!(machine.knocked_out());
    assert_eq!(machine.context().frame, 29);
    let frozen = machine.update();
    assert_eq!(frozen.context().frame, 29);
    assert_eq!(frozen.transition(Event::Run).phase(), Phase::KnockedOut);
}

#[test]
fn every_tick_stays_above_floor_and_below_terminal_velocity() {
    let mut machine = running().transition(Event::Jump);
    for tick in 0..200 {
        machine = machine.update();
        assert!(machine.context().position.y <= FLOOR);
        assert!(machine.context().velocity.y <= MAX_VELOCITY);
        if tick == 10 {
            machine = machine.transition(Event::KnockOut);
        }
    }
    assert_eq!(machine.context().velocity.y, MAX_VELOCITY);
    assert_eq!(machine.context().position.y, FLOOR);
}

#[test]
fn landing_puts_feet_on_the_surface() {
    let machine = running().transition(Event::Land(420));
    assert_eq!(machine.phase(), Phase::Running);
    assert_eq!(machine.context().position.y, 420 - 121);
    let jumping = running().transition(Event::Jump).update().update();
    let landed = jumping.transition(Event::Land(375));
    assert_eq!(landed.phase(), Phase::Running);
    assert_eq!(landed.context().frame, 0);
    assert_eq!(landed.context().position.y, 375 - 121);
    let sliding = running().transition(Event::Slide).transition(Event::Land(400));
    assert_eq!(sliding.phase(), Phase::Sliding);
    assert_eq!(sliding.context().position.y, 279);
}

#[test]
fn one_update_moves_and_clamps() {
    let context = RedHatBoyContext {
        frame: 3,
        position: Point { x: 0, y: 470 },
        velocity: Point { x: 4, y: 20 },
        jump_sound_pending: false,
    };
    let next = context.update(23);
    assert_eq!(next.frame, 4);
    assert_eq!(next.position.y, FLOOR);
    assert_eq!(next.velocity.y, MAX_VELOCITY);
    let wrapped = RedHatBoyContext { frame: 23, ..context }.update(23);
    assert_eq!(wrapped.frame, 0);
    let rising = RedHatBoyContext { position: Point { x: 0, y: 300 }, velocity: Point { x: 0, y: -10 }, ..context };
    let next = rising.apply_velocity();
    assert_eq!(next.position.y, 290);
    assert_eq!(next.velocity.y, -9);
    assert_eq!(next.frame, 3);
}

#[test]
fn typestate_transitions_carry_the_context() {
    let idle = RedHatBoyState::new();
    assert_eq!(idle.frame_name(), "Idle");
    let run = idle.run();
    assert_eq!(run.frame_name(), "Run");
    assert_eq!(run.context().velocity.x, RUNNING_SPEED);
    let jump = run.jump();
    assert_eq!(jump.frame_name(), "Jump");
    let fall = jump.knock_out();
    assert_eq!(fall.context().velocity.x, 0);
    assert_eq!(fall.context().velocity.y, JUMP_SPEED);
    let out = fall.dead();
    assert_eq!(out.frame_name(), "Dead");
    assert_eq!(out.land_on(600).context().position.y, FLOOR);
}

#[test]
fn jump_sound_is_handed_out_once() {
    let machine = running().transition(Event::Jump);
    let (machine, pending) = machine.take_jump_sound();
    assert!(pending);
    let (_, again) = machine.take_jump_sound();
    assert!(!again);
}
