use walk_the_dog::segment::create_floating_platform;
use walk_the_dog::{
    other_platform, rightmost, stone_and_platform, Barrier, Cell, DrawCommand, Event, Image, Obstacle, Phase, Picture,
    Platform, Point, Rect, RedHatBoy, Sheet, SheetRect, Texture,
};

fn cell(w: i16, h: i16) -> Cell {
    Cell { frame: SheetRect { x: 0, y: 0, w, h }, sprite_source_size: SheetRect { x: 0, y: 0, w, h } }
}

fn boy_sheet() -> Sheet {
    let mut sheet = Sheet::new();
    for (name, count) in [("Idle", 10), ("Run", 8), ("Slide", 6), ("Jump", 12), ("Dead", 10)] {
        for n in 1..=count {
            sheet.insert(format!("{} ({}).png", name, n), cell(160, 136));
        }
    }
    sheet
}

fn tiles() -> Sheet {
    let mut sheet = Sheet::new();
    sheet.insert("13.png".to_string(), Cell { frame: SheetRect { x: 0, y: 0, w: 128, h: 93 }, sprite_source_size: SheetRect { x: 0, y: 0, w: 128, h: 93 } });
    sheet.insert("14.png".to_string(), Cell { frame: SheetRect { x: 128, y: 0, w: 128, h: 93 }, sprite_source_size: SheetRect { x: 0, y: 0, w: 128, h: 93 } });
    sheet.insert("15.png".to_string(), Cell { frame: SheetRect { x: 256, y: 0, w: 128, h: 93 }, sprite_source_size: SheetRect { x: 0, y: 0, w: 128, h: 93 } });
    sheet
}

/// A running character; its collision box is x in [-2, 130), y in [top + 14, top + 136).
fn runner() -> RedHatBoy {
    let mut boy = RedHatBoy::new(boy_sheet()).ok().unwrap();
    boy.run_right();
    boy
}

fn stone() -> Picture {
    Picture { texture: Texture::Stone, width: 90, height: 54 }
}

#[test]
fn barrier_knocks_out_on_contact_whatever_the_direction() {
    let barrier = Barrier::new(Image::new(stone(), Point { x: 100, y: 500 }));
    let mut boy = runner();
    barrier.check_intersection(&mut boy);
    assert_eq!(boy.state_machine.phase(), Phase::Falling);

    let mut jumper = runner();
    jumper.jump();
    jumper.update();
    assert!(jumper.velocity_y() < 0);
    barrier.check_intersection(&mut jumper);
    assert_eq!(jumper.state_machine.phase(), Phase::Falling);
}

#[test]
fn barrier_out_of_reach_changes_nothing() {
    let barrier = Barrier::new(Image::new(stone(), Point { x: 300, y: 500 }));
    let mut boy = runner();
    barrier.check_intersection(&mut boy);
    assert_eq!(boy.state_machine.phase(), Phase::Running);
    assert_eq!(barrier.right(), 390);
    assert_eq!(barrier.draw(), DrawCommand::Image { texture: Texture::Stone, position: Point { x: 300, y: 500 } });
}

#[test]
fn platform_is_landed_on_from_above() {
    let platform = create_floating_platform(&tiles(), Point { x: 0, y: 420 });
    let mut boy = runner();
    boy.jump();
    // rise and come down onto the platform
    while boy.velocity_y() <= 0 {
        boy.update();
    }
    for _ in 0..18 {
        boy.update();
    }
    assert!(boy.velocity_y() > 0);
    assert!(boy.pos_y() < 420);
    assert_eq!(boy.state_machine.phase(), Phase::Jumping);
    platform.check_intersection(&mut boy);
    assert_eq!(boy.state_machine.phase(), Phase::Running);
    assert_eq!(boy.pos_y(), 420 - 121);
}

#[test]
fn platform_knocks_out_from_the_side() {
    let platform = create_floating_platform(&tiles(), Point { x: 100, y: 450 });
    let mut boy = runner();
    platform.check_intersection(&mut boy);
    assert_eq!(boy.state_machine.phase(), Phase::Falling);
}

#[test]
fn platform_missed_changes_nothing() {
    let platform = create_floating_platform(&tiles(), Point { x: 400, y: 420 });
    let mut boy = runner();
    let before = *boy.state_machine.context();
    platform.check_intersection(&mut boy);
    assert_eq!(boy.state_machine.phase(), Phase::Running);
    assert_eq!(*boy.state_machine.context(), before);
}

#[test]
fn platform_new_skips_unknown_tiles_and_places_boxes() {
    let mut sheet = Sheet::new();
    sheet.insert("b.png".to_string(), cell(10, 20));
    let boxes = [Rect::new_from_x_y(0, 0, 5, 5), Rect::new_from_x_y(5, 2, 5, 5)];
    let platform = Platform::new(&sheet, Point { x: 100, y: 200 }, &["a.png", "b.png", "c.png"], &boxes);
    assert_eq!(platform.sprites, vec![cell(10, 20)]);
    assert_eq!(
        platform.bounding_boxes,
        vec![Rect::new_from_x_y(100, 200, 5, 5), Rect::new_from_x_y(105, 202, 5, 5)]
    );
    assert_eq!(platform.right(), 110);
}

#[test]
fn floating_platform_shape() {
    let platform = create_floating_platform(&tiles(), Point { x: 370, y: 420 });
    assert_eq!(
        platform.bounding_boxes,
        vec![
            Rect::new_from_x_y(370, 420, 60, 54),
            Rect::new_from_x_y(430, 420, 264, 93),
            Rect::new_from_x_y(694, 420, 60, 54),
        ]
    );
    assert_eq!(platform.right(), 754);
    assert_eq!(
        platform.draw(),
        vec![
            DrawCommand::Sprite { texture: Texture::Tiles, source: Rect::new_from_x_y(0, 0, 128, 93), destination: Rect::new_from_x_y(370, 420, 128, 93) },
            DrawCommand::Sprite { texture: Texture::Tiles, source: Rect::new_from_x_y(128, 0, 128, 93), destination: Rect::new_from_x_y(498, 420, 128, 93) },
            DrawCommand::Sprite { texture: Texture::Tiles, source: Rect::new_from_x_y(256, 0, 128, 93), destination: Rect::new_from_x_y(626, 420, 128, 93) },
        ]
    );
}

#[test]
fn moving_shifts_every_box() {
    let mut obstacle = Obstacle::Platform(create_floating_platform(&tiles(), Point { x: 370, y: 420 }));
    obstacle.move_horizontally(-4);
    assert_eq!(obstacle.right(), 750);
    match &obstacle {
        Obstacle::Platform(p) => {
            assert_eq!(p.position, Point { x: 366, y: 420 });
            assert_eq!(p.bounding_boxes[1], Rect::new_from_x_y(426, 420, 264, 93));
        }
        Obstacle::Barrier(_) => panic!("expected a platform"),
    }
    let mut barrier = Obstacle::Barrier(Barrier::new(Image::new(stone(), Point { x: 10, y: 60 })));
    barrier.move_horizontally(-3);
    assert_eq!(barrier.right(), 97);
}

#[test]
fn segments_are_placed_at_the_offset() {
    let segment = stone_and_platform(stone(), &tiles(), 100);
    assert_eq!(segment.len(), 2);
    assert_eq!(segment[0], Obstacle::Barrier(Barrier::new(Image::new(stone(), Point { x: 250, y: 60 }))));
    assert_eq!(segment[1], Obstacle::Platform(create_floating_platform(&tiles(), Point { x: 470, y: 420 })));
    assert_eq!(rightmost(&segment), 854);

    let high = other_platform(&tiles(), 100);
    assert_eq!(high.len(), 1);
    assert_eq!(high[0], Obstacle::Platform(create_floating_platform(&tiles(), Point { x: 470, y: 375 })));
    assert_eq!(rightmost(&high), 854);
    assert_eq!(rightmost(&Vec::new()), 0);
}

#[test]
fn obstacle_dispatch_applies_the_rules() {
    let mut boy = runner();
    let obstacle = Obstacle::Barrier(Barrier::new(Image::new(stone(), Point { x: 0, y: 500 })));
    obstacle.check_intersection(&mut boy);
    assert_eq!(boy.state_machine.phase(), Phase::Falling);
    assert_eq!(boy.state_machine.transition(Event::Update).phase(), Phase::Falling);
    assert_eq!(obstacle.draw(), vec![DrawCommand::Image { texture: Texture::Stone, position: Point { x: 0, y: 500 } }]);
}

#[test]
fn platform_right_is_the_rightmost_box_edge() {
    let boxes = [Rect::new_from_x_y(100, 0, 10, 10), Rect::new_from_x_y(0, 0, 10, 10)];
    let platform = Platform::new(&Sheet::new(), Point { x: 0, y: 0 }, &[], &boxes);
    assert_eq!(platform.right(), 110);
    let empty = Platform::new(&Sheet::new(), Point { x: 50, y: 0 }, &[], &[]);
    assert_eq!(empty.right(), 0);
    let mut moved = Obstacle::Platform(platform);
    moved.move_horizontally(-4);
    assert_eq!(moved.right(), 106);
}

#[test]
fn segments_may_start_left_of_the_screen() {
    let segment = stone_and_platform(stone(), &tiles(), -500);
    assert_eq!(segment[0], Obstacle::Barrier(Barrier::new(Image::new(stone(), Point { x: -350, y: 60 }))));
    assert_eq!(rightmost(&segment), -500 + 370 + 384);
}
