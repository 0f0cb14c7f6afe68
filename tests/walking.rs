use walk_the_dog::segment::create_floating_platform;
use walk_the_dog::walk::{OBSTACLE_BUFFER, TIMELINE_MINIMUM};
use walk_the_dog::{
    stone_and_platform, other_platform, Action, Barrier, Cell, DrawCommand, GameError, Image, KeyState,
    GamePhase, Obstacle, Phase, Picture, Point, RedHatBoy, Sheet, SheetRect, Texture, Walk, WalkTheDog,
    WalkTheDogStateMachine,
};

fn cell(w: i16, h: i16) -> Cell {
    Cell { frame: SheetRect { x: 0, y: 0, w, h }, sprite_source_size: SheetRect { x: 0, y: 0, w, h } }
}

fn boy_sheet() -> Sheet {
    let mut sheet = Sheet::new();
    for (name, count) in [("Idle", 10), ("Run", 8), ("Slide", 6), ("Jump", 12), ("Dead", 10)] {
        for n in 1..=count {
            sheet.insert(format!("{} ({}).png", name, n), cell(160, 136));
        }
    }
    sheet
}

fn tiles() -> Sheet {
    let mut sheet = Sheet::new();
    sheet.insert("13.png".to_string(), cell(128, 93));
    sheet.insert("14.png".to_string(), cell(128, 93));
    sheet.insert("15.png".to_string(), cell(128, 93));
    sheet
}

fn stone() -> Picture {
    Picture { texture: Texture::Stone, width: 90, height: 54 }
}

fn background() -> Picture {
    Picture { texture: Texture::Background, width: 1000, height: 600 }
}

fn walk() -> Walk {
    let boy = RedHatBoy::new(boy_sheet()).ok().unwrap();
    Walk::new(boy, background(), stone(), tiles()).ok().unwrap()
}

#[test]
fn new_walk_starts_with_first_segment() {
    let walk = walk();
    assert_eq!(walk.obstacles, stone_and_platform(stone(), &tiles(), 0));
    assert_eq!(walk.timeline, 754);
    assert_eq!(walk.backgrounds[0].bounding_box.position, Point { x: 0, y: 0 });
    assert_eq!(walk.backgrounds[1].bounding_box.position, Point { x: 1000, y: 0 });
    assert_eq!(walk.velocity(), 0);
}

#[test]
fn walk_new_refuses_unusable_assets() {
    let tiny = Picture { texture: Texture::Background, width: 3, height: 600 };
    let boy = RedHatBoy::new(boy_sheet()).ok().unwrap();
    assert_eq!(Walk::new(boy, tiny, stone(), tiles()).err(), Some(GameError::ImageOutOfBounds));
    let mut bad_tiles = tiles();
    bad_tiles.insert("14.png".to_string(), cell(-1, 93));
    let boy = RedHatBoy::new(boy_sheet()).ok().unwrap();
    assert_eq!(Walk::new(boy, background(), stone(), bad_tiles).err(), Some(GameError::MissingTile));
}

#[test]
fn segment_is_generated_past_a_low_timeline() {
    let mut walk = walk();
    walk.timeline = 990;
    assert!(walk.timeline < TIMELINE_MINIMUM);
    let before = walk.obstacles.len();
    walk.generate_segment(0);
    let expected = stone_and_platform(stone(), &tiles(), 990 + OBSTACLE_BUFFER);
    assert_eq!(walk.obstacles[before..].to_vec(), expected);
    assert_eq!(walk.timeline, 1010 + 370 + 384);
    assert!(walk.timeline >= 990 + OBSTACLE_BUFFER);

    let mut walk = self::walk();
    walk.timeline = 990;
    walk.generate_segment(1);
    assert_eq!(walk.obstacles[2..].to_vec(), other_platform(&tiles(), 1010));
    assert_eq!(walk.timeline, 1764);

    let mut walk = self::walk();
    walk.timeline = 990;
    walk.generate_segment(7);
    assert_eq!(walk.obstacles.len(), 2);
    assert_eq!(walk.timeline, 0);
}

#[test]
fn random_segment_is_one_of_the_two() {
    let mut walk = walk();
    walk.timeline = 500;
    walk.generate_next_segment();
    let added = walk.obstacles[2..].to_vec();
    assert!(added == stone_and_platform(stone(), &tiles(), 520) || added == other_platform(&tiles(), 520));
    assert!(walk.timeline >= 520);
}

#[test]
fn passed_obstacles_are_removed_in_order() {
    let mut walk = walk();
    let far = Obstacle::Platform(create_floating_platform(&tiles(), Point { x: 2000, y: 420 }));
    let gone = Obstacle::Barrier(Barrier::new(Image::new(stone(), Point { x: -90, y: 60 })));
    let edge = Obstacle::Barrier(Barrier::new(Image::new(stone(), Point { x: -89, y: 60 })));
    walk.obstacles.insert(1, gone);
    walk.obstacles.push(edge.clone());
    walk.obstacles.push(far.clone());
    walk.remove_passed_obstacles();
    let mut expected = stone_and_platform(stone(), &tiles(), 0);
    expected.push(edge);
    expected.push(far);
    assert_eq!(walk.obstacles, expected);
}

#[test]
fn backgrounds_loop_endlessly() {
    let mut walk = walk();
    walk.boy.run_right();
    let velocity = walk.velocity();
    assert_eq!(velocity, -4);
    for _ in 0..250 {
        walk.scroll_backgrounds(velocity);
    }
    assert_eq!(walk.backgrounds[0].bounding_box.position.x, -1000);
    assert_eq!(walk.backgrounds[1].bounding_box.position.x, 0);
    walk.scroll_backgrounds(velocity);
    assert_eq!(walk.backgrounds[0].bounding_box.position.x, 996);
    assert_eq!(walk.backgrounds[1].bounding_box.position.x, -4);
}

#[test]
fn moving_obstacles_runs_collisions() {
    let mut walk = walk();
    walk.boy.run_right();
    walk.obstacles = vec![Obstacle::Barrier(Barrier::new(Image::new(stone(), Point { x: 132, y: 500 })))];
    walk.move_obstacles(-4);
    assert_eq!(walk.obstacles[0].right(), 218);
    assert_eq!(walk.boy.state_machine.phase(), Phase::Falling);
}

#[test]
fn reset_restores_a_fresh_walk() {
    let mut walk = walk();
    walk.boy.run_right();
    walk.boy.jump();
    walk.boy.update();
    walk.boy.knock_out();
    walk.timeline = 3000;
    walk.obstacles.clear();
    let fresh = Walk::reset(walk);
    assert_eq!(fresh.boy.state_machine.phase(), Phase::Idle);
    assert_eq!(fresh.boy.state_machine.context().position, Point { x: -20, y: 479 });
    assert_eq!(fresh.boy.state_machine.context().velocity, Point { x: 0, y: 0 });
    assert_eq!(fresh.boy.state_machine.context().frame, 0);
    assert_eq!(fresh.obstacles, stone_and_platform(stone(), &tiles(), 0));
    assert_eq!(fresh.timeline, 754);
}

#[test]
fn walk_draws_backgrounds_boy_then_obstacles() {
    let walk = walk();
    let commands = walk.draw();
    assert_eq!(commands.len(), 2 + 2 + 1 + 3);
    assert_eq!(commands[0], DrawCommand::Image { texture: Texture::Background, position: Point { x: 0, y: 0 } });
    assert_eq!(commands[1], DrawCommand::Image { texture: Texture::Background, position: Point { x: 1000, y: 0 } });
    assert_eq!(commands[4], DrawCommand::Image { texture: Texture::Stone, position: Point { x: 150, y: 60 } });
}

#[test]
fn game_is_initialized_once() {
    let game = WalkTheDog::new();
    assert!(!game.is_initialized());
    let game = game.initialize(walk()).ok().unwrap();
    assert!(game.is_initialized());
    assert_eq!(game.initialize(walk()).err(), Some(GameError::AlreadyInitialized));
}

#[test]
fn game_runs_from_ready_to_game_over_and_back() {
    let mut game = WalkTheDog::new().initialize(walk()).ok().unwrap();
    let mut keys = KeyState::new();
    assert_eq!(game.update(&keys, false), vec![]);
    keys.set_pressed("ArrowRight".to_string());
    assert!(keys.is_pressed("ArrowRight"));
    assert_eq!(game.update(&keys, false), vec![]);
    keys.set_released("ArrowRight");
    assert!(!keys.is_pressed("ArrowRight"));
    keys.set_pressed("Space".to_string());
    let actions = game.update(&keys, false);
    assert_eq!(actions, vec![Action::PlayJumpSound]);
    keys.set_released("Space");
    let mut ticks = 0;
    let mut shown = false;
    while !shown {
        let actions = game.update(&keys, false);
        shown = actions.contains(&Action::ShowNewGameButton);
        ticks += 1;
        assert!(ticks < 2000);
    }
    assert_eq!(game.update(&keys, false), vec![]);
    assert_eq!(game.update(&keys, true), vec![Action::HideNewGameButton]);
    let commands = game.draw();
    assert_eq!(commands[0], DrawCommand::Clear { rect: walk_the_dog::Rect::new_from_x_y(0, 0, 600, 600) });
    assert_eq!(commands[5], DrawCommand::Image { texture: Texture::Stone, position: Point { x: 150, y: 60 } });
}

#[test]
fn character_stays_knocked_out_until_a_new_game() {
    let mut machine = WalkTheDogStateMachine::new(walk());
    let mut keys = KeyState::new();
    keys.set_pressed("ArrowRight".to_string());
    let mut ticks = 0;
    while machine.phase_of() != GamePhase::GameOver {
        let (next, _) = machine.update(&keys, false);
        machine = next;
        ticks += 1;
        assert!(ticks < 2000);
    }
    assert!(machine.walk().knocked_out());
    let (machine, actions) = machine.update(&keys, false);
    assert_eq!(actions, vec![]);
    assert_eq!(machine.phase_of(), GamePhase::GameOver);
    assert!(machine.walk().knocked_out());
    let (machine, actions) = machine.update(&keys, true);
    assert_eq!(actions, vec![Action::HideNewGameButton]);
    assert_eq!(machine.phase_of(), GamePhase::Ready);
    let walk = machine.walk();
    assert_eq!(walk.boy.state_machine.phase(), Phase::Idle);
    assert_eq!(walk.boy.state_machine.context().position, Point { x: -20, y: 479 });
    assert_eq!(walk.boy.state_machine.context().velocity, Point { x: 0, y: 0 });
    assert_eq!(walk.boy.state_machine.context().frame, 0);
    assert_eq!(walk.obstacles, stone_and_platform(stone(), &tiles(), 0));
    assert_eq!(walk.timeline, 754);
}
