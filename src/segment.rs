//! Segments: fixed groups of obstacles, placed relative to a horizontal offset.
use crate::geometry::{Point, Rect};
use crate::obstacle::{lemma_spans_widen, known_cells, placed, total_width, Barrier, Image, Obstacle, Picture, Platform};
use crate::red_hat_boy_machine::LOWEST_LANDING;
use crate::red_hat_boy_states::HEIGHT;
use crate::sheet::{Cell, Sheet, MAX_EXTENT};
use vstd::prelude::*;
use vstd::string::StringExecFns;

verus! {

/// Top of a high platform.
pub const HIGH_PLATFORM: i16 = 375;
/// Top of a low platform.
pub const LOW_PLATFORM: i16 = 420;
/// Horizontal place of a segment's platform.
pub const FIRST_PLATFORM: i16 = 370;
/// Top of a stone resting on the ground.
pub const STONE_ON_GROUND: i16 = 60;
/// Horizontal place of a segment's stone.
pub const INITIAL_STONE_OFFSET: i16 = 150;
/// Width of a floating platform's collision boxes, end to end.
pub const PLATFORM_WIDTH: i16 = 384;
/// Width of a floating platform's end caps.
pub const PLATFORM_EDGE: i16 = 60;

/// Names of the three tiles of a floating platform.
pub open spec fn floating_platform_names() -> Seq<Seq<char>> {
    seq![seq!['1', '3', '.', 'p', 'n', 'g'], seq!['1', '4', '.', 'p', 'n', 'g'], seq!['1', '5', '.', 'p', 'n', 'g']]
}

/// Collision boxes of a floating platform, relative to its position: a low
/// left cap, a taller middle span and a low right cap.
pub open spec fn floating_platform_boxes() -> Seq<Rect> {
    seq![
        Rect::new_spec(0, 0, PLATFORM_EDGE, 54),
        Rect::new_spec(PLATFORM_EDGE, 0, (PLATFORM_WIDTH - PLATFORM_EDGE * 2) as i16, 93),
        Rect::new_spec((PLATFORM_WIDTH - PLATFORM_EDGE) as i16, 0, PLATFORM_EDGE, 54),
    ]
}

/// Every tile of a floating platform that the sheet has is in bounds.
pub open spec fn tiles_in_bounds(sheet: Map<Seq<char>, Cell>) -> bool {
    forall|j: int|
        0 <= j < 3 ==> (#[trigger] sheet.contains_key(floating_platform_names()[j])
            ==> sheet[floating_platform_names()[j]].in_bounds())
}

/// Segments may be placed at `offset` without leaving `i16`.
pub open spec fn offset_fits(offset: int) -> bool {
    i16::MIN <= offset + INITIAL_STONE_OFFSET && offset + FIRST_PLATFORM + 3 * MAX_EXTENT <= i16::MAX
}

/// `o` is the floating platform at `position` built from `sheet`.
pub open spec fn is_floating_platform(o: Obstacle, sheet: Map<Seq<char>, Cell>, position: Point) -> bool {
    &&& o is Platform
    &&& o->Platform_0.position == position
    &&& o->Platform_0.sprites@ == known_cells(sheet, floating_platform_names())
    &&& o->Platform_0.bounding_boxes@ == floating_platform_boxes().map_values(|b: Rect| placed(b, position))
}

/// `o` is the stone with its top-left corner at `position`.
pub open spec fn is_stone(o: Obstacle, stone: Picture, position: Point) -> bool {
    &&& o is Barrier
    &&& o->Barrier_0.image == (Image {
        texture: stone.texture,
        bounding_box: Rect::new_spec(position.x, position.y, stone.width, stone.height),
    })
}

/// The segment of a stone on the ground followed by a low floating platform.
pub open spec fn is_stone_and_platform(
    s: Seq<Obstacle>,
    stone: Picture,
    sheet: Map<Seq<char>, Cell>,
    offset: int,
) -> bool {
    &&& s.len() == 2
    &&& is_stone(s[0], stone, Point { x: (offset + INITIAL_STONE_OFFSET) as i16, y: STONE_ON_GROUND })
    &&& is_floating_platform(s[1], sheet, Point { x: (offset + FIRST_PLATFORM) as i16, y: LOW_PLATFORM })
}

/// The segment of a high floating platform alone.
pub open spec fn is_other_platform(s: Seq<Obstacle>, sheet: Map<Seq<char>, Cell>, offset: int) -> bool {
    &&& s.len() == 1
    &&& is_floating_platform(s[0], sheet, Point { x: (offset + FIRST_PLATFORM) as i16, y: HIGH_PLATFORM })
}

/// An obstacle of a segment placed at `offset`: well formed, with all its
/// parts near its right edge, which lies a little right of `offset`.
pub open spec fn placed_in_segment(o: Obstacle, offset: int) -> bool {
    &&& o.wf()
    &&& o.has_extent()
    &&& o.spans(o.spec_right() - 4 * MAX_EXTENT, o.spec_right() + 4 * MAX_EXTENT)
    &&& offset + INITIAL_STONE_OFFSET <= o.spec_right() <= offset + INITIAL_STONE_OFFSET + MAX_EXTENT
}

/// The largest right edge of the obstacles, or 0 when there are none.
pub open spec fn max_right(s: Seq<Obstacle>) -> int
    decreases s.len(),
{
    if s.len() == 0 {
        0
    } else if s.len() == 1 {
        s[0].spec_right()
    } else {
        let rest = max_right(s.drop_last());
        if s.last().spec_right() > rest {
            s.last().spec_right()
        } else {
            rest
        }
    }
}

pub fn floating_platform_sprites() -> (r: Vec<&'static str>)
    ensures
        r@.len() == 3,
        r@.map_values(|n: &str| n@) == floating_platform_names(),
{
    proof {
        reveal_strlit("13.png");
        reveal_strlit("14.png");
        reveal_strlit("15.png");
    }
    let mut names = Vec::new();
    names.push("13.png");
    names.push("14.png");
    names.push("15.png");
    assert("13.png"@ =~= floating_platform_names()[0]);
    assert("14.png"@ =~= floating_platform_names()[1]);
    assert("15.png"@ =~= floating_platform_names()[2]);
    assert(names@.map_values(|n: &str| n@) =~= floating_platform_names());
    names
}

pub fn floating_platform_bounding_boxes() -> (r: Vec<Rect>)
    ensures
        r@ == floating_platform_boxes(),
{
    let mut boxes = Vec::new();
    boxes.push(Rect::new_from_x_y(0, 0, PLATFORM_EDGE, 54));
    boxes.push(Rect::new_from_x_y(PLATFORM_EDGE, 0, PLATFORM_WIDTH - (PLATFORM_EDGE * 2), 93));
    boxes.push(Rect::new_from_x_y(PLATFORM_WIDTH - PLATFORM_EDGE, 0, PLATFORM_EDGE, 54));
    assert(boxes@ =~= floating_platform_boxes());
    boxes
}

proof fn lemma_known_cells_bounded(sheet: Map<Seq<char>, Cell>, names: Seq<Seq<char>>)
    requires
        forall|j: int|
            0 <= j < names.len() ==> (#[trigger] sheet.contains_key(names[j]) ==> sheet[names[j]].in_bounds()),
    ensures
        known_cells(sheet, names).len() <= names.len(),
        forall|j: int|
            0 <= j < known_cells(sheet, names).len() ==> #[trigger] known_cells(sheet, names)[j].in_bounds(),
        0 <= total_width(known_cells(sheet, names)) <= names.len() * MAX_EXTENT,
    decreases names.len(),
{
    if names.len() > 0 {
        let rest = names.drop_last();
        assert forall|j: int| 0 <= j < rest.len() implies (#[trigger] sheet.contains_key(rest[j]) ==> sheet[rest[j]].in_bounds()) by {
            assert(rest[j] == names[j]);
        }
        lemma_known_cells_bounded(sheet, rest);
        let k = known_cells(sheet, names);
        let kr = known_cells(sheet, rest);
        assert(names.last() == names[names.len() - 1]);
        if sheet.contains_key(names.last()) {
            assert(k.drop_last() =~= kr);
        }
    }
}

/// A floating platform at `position`.
pub fn create_floating_platform(sprite_sheet: &Sheet, position: Point) -> (r: Platform)
    requires
        offset_fits(position.x - FIRST_PLATFORM),
        tiles_in_bounds(sprite_sheet@),
        LOWEST_LANDING <= position.y <= HEIGHT,
    ensures
        is_floating_platform(Obstacle::Platform(r), sprite_sheet@, position),
        r.wf(),
        Obstacle::Platform(r).spans(position.x as int, position.x + 4 * MAX_EXTENT),
        Obstacle::Platform(r).spec_right() == position.x + PLATFORM_WIDTH,
{
    let names = floating_platform_sprites();
    let boxes = floating_platform_bounding_boxes();
    let r = Platform::new(sprite_sheet, position, names.as_slice(), boxes.as_slice());
    proof {
        lemma_known_cells_bounded(sprite_sheet@, floating_platform_names());
        assert(r.bounding_boxes@[0] == placed(floating_platform_boxes()[0], position));
        assert(r.bounding_boxes@[1] == placed(floating_platform_boxes()[1], position));
        assert(r.bounding_boxes@[2] == placed(floating_platform_boxes()[2], position));
        let bs = r.bounding_boxes@;
        assert(bs.drop_last().drop_last() =~= seq![bs[0]]);
        assert(bs.drop_last()[1] == bs[1]);
        reveal_with_fuel(crate::obstacle::max_box_right, 3);
    }
    r
}

/// A stone on the ground, then a low floating platform, placed at `offset_x`.
pub fn stone_and_platform(stone: Picture, sprite_sheet: &Sheet, offset_x: i16) -> (r: Vec<Obstacle>)
    requires
        offset_fits(offset_x as int),
        stone.in_bounds(),
        tiles_in_bounds(sprite_sheet@),
    ensures
        is_stone_and_platform(r@, stone, sprite_sheet@, offset_x as int),
        forall|j: int| 0 <= j < r@.len() ==> placed_in_segment(#[trigger] r@[j], offset_x as int),
{
    let mut obstacles = Vec::new();
    obstacles.push(
        Obstacle::Barrier(
            Barrier::new(Image::new(stone, Point { x: offset_x + INITIAL_STONE_OFFSET, y: STONE_ON_GROUND })),
        ),
    );
    obstacles.push(
        Obstacle::Platform(
            create_floating_platform(sprite_sheet, Point { x: offset_x + FIRST_PLATFORM, y: LOW_PLATFORM }),
        ),
    );
    proof {
        let p = obstacles@[1];
        lemma_spans_widen(p, p.spec_right() - PLATFORM_WIDTH, p.spec_right() - PLATFORM_WIDTH + 4 * MAX_EXTENT, p.spec_right() - 4 * MAX_EXTENT, p.spec_right() + 4 * MAX_EXTENT);
        assert(placed_in_segment(obstacles@[0], offset_x as int));
    }
    obstacles
}

/// A high floating platform alone, placed at `offset_x`.
pub fn other_platform(sprite_sheet: &Sheet, offset_x: i16) -> (r: Vec<Obstacle>)
    requires
        offset_fits(offset_x as int),
        tiles_in_bounds(sprite_sheet@),
    ensures
        is_other_platform(r@, sprite_sheet@, offset_x as int),
        forall|j: int| 0 <= j < r@.len() ==> placed_in_segment(#[trigger] r@[j], offset_x as int),
{
    let mut obstacles = Vec::new();
    obstacles.push(
        Obstacle::Platform(
            create_floating_platform(sprite_sheet, Point { x: offset_x + FIRST_PLATFORM, y: HIGH_PLATFORM }),
        ),
    );
    proof {
        let p = obstacles@[0];
        lemma_spans_widen(p, p.spec_right() - PLATFORM_WIDTH, p.spec_right() - PLATFORM_WIDTH + 4 * MAX_EXTENT, p.spec_right() - 4 * MAX_EXTENT, p.spec_right() + 4 * MAX_EXTENT);
    }
    obstacles
}

/// The largest right edge bounds every right edge, and is one of them.
pub proof fn lemma_max_right(s: Seq<Obstacle>)
    ensures
        forall|i: int| 0 <= i < s.len() ==> #[trigger] s[i].spec_right() <= max_right(s),
        s.len() > 0 ==> exists|i: int| 0 <= i < s.len() && s[i].spec_right() == max_right(s),
    decreases s.len(),
{
    if s.len() > 1 {
        lemma_max_right(s.drop_last());
        let rest = s.drop_last();
        assert forall|i: int| 0 <= i < s.len() implies #[trigger] s[i].spec_right() <= max_right(s) by {
            if i < s.len() - 1 {
                assert(s[i] == rest[i]);
            }
        }
        if s.last().spec_right() <= max_right(rest) {
            let i = choose|i: int| 0 <= i < rest.len() && rest[i].spec_right() == max_right(rest);
            assert(s[i] == rest[i]);
        } else {
            assert(s[s.len() - 1].spec_right() == max_right(s));
        }
    } else if s.len() == 1 {
        assert(s[0].spec_right() == max_right(s));
    }
}

/// Whether every floating-platform tile the sheet has is in bounds.
pub fn tiles_fit(sheet: &Sheet) -> (r: bool)
    ensures
        r == tiles_in_bounds(sheet@),
{
    let names = floating_platform_sprites();
    let mut i: usize = 0;
    while i < 3
        invariant
            i <= 3,
            names@.len() == 3,
            names@.map_values(|n: &str| n@) == floating_platform_names(),
            forall|j: int|
                0 <= j < i ==> (#[trigger] sheet@.contains_key(floating_platform_names()[j])
                    ==> sheet@[floating_platform_names()[j]].in_bounds()),
        decreases 3 - i,
    {
        let name = String::from_str(names[i]);
        assert(name@ == floating_platform_names()[i as int]);
        match sheet.cell(&name) {
            Some(cell) => {
                if !cell.is_in_bounds() {
                    return false;
                }
            },
            None => {},
        }
        i = i + 1;
    }
    true
}

/// The largest right edge of the obstacles, or 0 when there are none.
pub fn rightmost(obstacle_list: &Vec<Obstacle>) -> (r: i16)
    requires
        forall|j: int| 0 <= j < obstacle_list@.len() ==> #[trigger] obstacle_list@[j].wf(),
    ensures
        r == max_right(obstacle_list@),
{
    let ghost s = obstacle_list@;
    if obstacle_list.len() == 0 {
        return 0;
    }
    let mut best = obstacle_list[0].right();
    let mut i: usize = 1;
    assert(s.take(1).drop_last() =~= s.take(0));
    while i < obstacle_list.len()
        invariant
            1 <= i <= s.len(),
            s == obstacle_list@,
            forall|j: int| 0 <= j < s.len() ==> #[trigger] s[j].wf(),
            best == max_right(s.take(i as int)),
        decreases s.len() - i,
    {
        assert(s.take(i + 1).drop_last() =~= s.take(i as int));
        let right = obstacle_list[i].right();
        if right > best {
            best = right;
        }
        i = i + 1;
    }
    assert(s.take(i as int) =~= s);
    best
}

} // verus!
