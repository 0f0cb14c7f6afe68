use walk_the_dog::red_hat_boy::{covers_all_animations, decimal_text, frame_key_text};
use walk_the_dog::{Cell, DrawCommand, Event, GameError, Phase, Point, Rect, RedHatBoy, Sheet, SheetRect, Texture};

fn cell(w: i16, h: i16, trim_x: i16, trim_y: i16) -> Cell {
    Cell {
        frame: SheetRect { x: 10, y: 20, w, h },
        sprite_source_size: SheetRect { x: trim_x, y: trim_y, w, h },
    }
}

fn boy_sheet() -> Sheet {
    let mut sheet = Sheet::new();
    for (name, count) in [("Idle", 10), ("Run", 8), ("Slide", 6), ("Jump", 12), ("Dead", 10)] {
        for n in 1..=count {
            sheet.insert(format!("{} ({}).png", name, n), cell(160, 136, 0, 0));
        }
    }
    sheet
}

#[test]
fn sheet_lookup_finds_latest_cell() {
    let mut sheet = Sheet::new();
    assert_eq!(sheet.cell(&"a.png".to_string()), None);
    sheet.insert("a.png".to_string(), cell(1, 2, 0, 0));
    sheet.insert("b.png".to_string(), cell(3, 4, 0, 0));
    sheet.insert("a.png".to_string(), cell(5, 6, 0, 0));
    assert_eq!(sheet.cell(&"a.png".to_string()), Some(cell(5, 6, 0, 0)));
    assert_eq!(sheet.cell(&"b.png".to_string()), Some(cell(3, 4, 0, 0)));
    assert_eq!(sheet.cell(&"c.png".to_string()), None);
}

#[test]
fn decimal_text_writes_digits() {
    assert_eq!(decimal_text(0), "0");
    assert_eq!(decimal_text(7), "7");
    assert_eq!(decimal_text(12), "12");
    assert_eq!(decimal_text(255), "255");
}

#[test]
fn frame_keys_number_pictures_every_three_frames() {
    assert_eq!(frame_key_text("Run", 0), "Run (1).png");
    assert_eq!(frame_key_text("Run", 2), "Run (1).png");
    assert_eq!(frame_key_text("Run", 3), "Run (2).png");
    assert_eq!(frame_key_text("Jump", 35), "Jump (12).png");
}

#[test]
fn incomplete_sheet_is_refused() {
    assert!(!covers_all_animations(&Sheet::new()));
    assert_eq!(RedHatBoy::new(Sheet::new()).err(), Some(GameError::IncompleteSheet));
    let mut sheet = boy_sheet();
    assert!(covers_all_animations(&sheet));
    sheet.insert("Jump (12).png".to_string(), cell(4000, 10, 0, 0));
    assert!(!covers_all_animations(&sheet));
    assert!(RedHatBoy::new(sheet).is_err());
}

#[test]
fn frame_name_follows_phase_and_frame() {
    let mut boy = RedHatBoy::new(boy_sheet()).ok().unwrap();
    assert_eq!(boy.frame_name(), "Idle (1).png");
    for _ in 0..7 {
        boy.update();
    }
    assert_eq!(boy.frame_name(), "Idle (3).png");
    boy.run_right();
    assert_eq!(boy.frame_name(), "Run (1).png");
    assert_eq!(boy.walking_speed(), 4);
}

#[test]
fn collision_box_is_inset_from_sprite() {
    let mut sheet = boy_sheet();
    sheet.insert("Idle (1).png".to_string(), cell(100, 120, 5, 7));
    let boy = RedHatBoy::new(sheet).ok().unwrap();
    assert_eq!(boy.destination_box(), Rect::new_from_x_y(-20 + 5, 479 + 7, 100, 120));
    assert_eq!(boy.bounding_box(), Rect::new_from_x_y(-15 + 18, 486 + 14, 100 - 28, 120 - 14));
    let commands = boy.draw();
    assert_eq!(
        commands,
        vec![
            DrawCommand::Sprite {
                texture: Texture::Boy,
                source: Rect::new_from_x_y(10, 20, 100, 120),
                destination: Rect::new_from_x_y(-15, 486, 100, 120),
            },
            DrawCommand::Outline { rect: Rect::new_from_x_y(3, 500, 72, 106) },
        ]
    );
}

#[test]
fn boy_reset_starts_idle_again() {
    let mut boy = RedHatBoy::new(boy_sheet()).ok().unwrap();
    boy.run_right();
    boy.jump();
    assert!(boy.take_jump_sound());
    assert!(!boy.take_jump_sound());
    boy.update();
    boy.knock_out();
    assert_eq!(boy.state_machine.phase(), Phase::Falling);
    let fresh = RedHatBoy::reset(boy);
    assert_eq!(fresh.state_machine.phase(), Phase::Idle);
    assert_eq!(fresh.state_machine.context().position, Point { x: -20, y: 479 });
    assert_eq!(fresh.state_machine.context().velocity, Point { x: 0, y: 0 });
    assert_eq!(fresh.state_machine.context().frame, 0);
    assert_eq!(fresh.frame_name(), "Idle (1).png");
}

#[test]
fn land_on_moves_boy_to_surface() {
    let mut boy = RedHatBoy::new(boy_sheet()).ok().unwrap();
    boy.run_right();
    boy.land_on(420);
    assert_eq!(boy.pos_y(), 299);
    assert_eq!(boy.velocity_y(), 0);
    assert_eq!(boy.state_machine.transition(Event::Update).context().position.y, 299);
}
