//! Obstacles: a barrier knocks the character out on contact; a platform may
//! be landed on from above and is solid from every other side.
use crate::draw::{DrawCommand, Texture};
use crate::geometry::{Point, Rect};
use crate::red_hat_boy::RedHatBoy;
use crate::red_hat_boy_machine::{step, Event, LOWEST_LANDING};
use crate::red_hat_boy_states::{BoyView, Phase, HEIGHT, PLAYER_HEIGHT};
use crate::sheet::{Cell, Sheet, MAX_EXTENT};
use vstd::prelude::*;
use vstd::string::StringExecFns;

verus! {

/// A loaded image: which texture it is and its natural size.
#[derive(Clone, Copy, Debug, PartialEq, Eq, Structural)]
pub struct Picture {
    pub texture: Texture,
    pub width: i16,
    pub height: i16,
}

impl Picture {
    pub open spec fn in_bounds(&self) -> bool {
        0 <= self.width <= MAX_EXTENT && 0 <= self.height <= MAX_EXTENT
    }
}

/// A picture placed on screen.
#[derive(Clone, Copy, Debug, PartialEq, Eq, Structural)]
pub struct Image {
    pub texture: Texture,
    pub bounding_box: Rect,
}

/// `r` moved right by `dx`.
pub open spec fn moved_x(r: Rect, dx: int) -> Rect {
    Rect { position: Point { x: (r.position.x + dx) as i16, y: r.position.y }, width: r.width, height: r.height }
}

/// `r`, given relative to `origin`, in absolute coordinates.
pub open spec fn placed(r: Rect, origin: Point) -> Rect {
    Rect {
        position: Point { x: (r.position.x + origin.x) as i16, y: (r.position.y + origin.y) as i16 },
        width: r.width,
        height: r.height,
    }
}

impl Image {
    pub open spec fn new_spec(picture: Picture, position: Point) -> Image {
        Image { texture: picture.texture, bounding_box: Rect::new_spec(position.x, position.y, picture.width, picture.height) }
    }

    pub open spec fn spec_draw(&self) -> DrawCommand {
        DrawCommand::Image { texture: self.texture, position: self.bounding_box.position }
    }

    pub fn new(picture: Picture, position: Point) -> (r: Image)
        ensures
            r == Image::new_spec(picture, position),
    {
        Image { texture: picture.texture, bounding_box: Rect::new(position, picture.width, picture.height) }
    }

    pub fn bounding_box(&self) -> (r: &Rect)
        ensures
            *r == self.bounding_box,
    {
        &self.bounding_box
    }

    pub fn draw(&self) -> (r: DrawCommand)
        ensures
            r == self.spec_draw(),
    {
        DrawCommand::Image { texture: self.texture, position: self.bounding_box.position }
    }

    pub fn move_horizontally(&mut self, x: i16)
        requires
            i16::MIN <= old(self).bounding_box.position.x + x <= i16::MAX,
        ensures
            final(self).texture == old(self).texture,
            final(self).bounding_box == moved_x(old(self).bounding_box, x as int),
    {
        let new_x = self.bounding_box.x() + x;
        self.set_x(new_x);
    }

    pub fn set_x(&mut self, x: i16)
        ensures
            final(self).texture == old(self).texture,
            final(self).bounding_box == moved_x(old(self).bounding_box, x - old(self).bounding_box.position.x),
    {
        self.bounding_box.set_x(x);
    }

    pub fn right(&self) -> (r: i16)
        requires
            i16::MIN <= self.bounding_box.right_edge() <= i16::MAX,
        ensures
            r == self.bounding_box.right_edge(),
    {
        self.bounding_box.right()
    }
}

/// An obstacle that knocks the character out on any contact.
#[derive(Clone, Copy, Debug, PartialEq, Eq, Structural)]
pub struct Barrier {
    pub image: Image,
}

impl Barrier {
    pub fn new(image: Image) -> (r: Self)
        ensures
            r.image == image,
    {
        Barrier { image }
    }

    /// Knock the character out if its collision box meets the barrier.
    pub fn check_intersection(&self, boy: &mut RedHatBoy)
        requires
            old(boy).wf(),
            self.image.bounding_box.fits(),
        ensures
            final(boy).wf(),
            final(boy).sprite_sheet@ == old(boy).sprite_sheet@,
            final(boy).state_machine@ == if old(boy).spec_bounding_box().overlaps(&self.image.bounding_box) {
                step(old(boy).state_machine@, Event::KnockOut)
            } else {
                old(boy).state_machine@
            },
    {
        if boy.bounding_box().intersects(self.image.bounding_box()) {
            boy.knock_out()
        }
    }

    pub fn draw(&self) -> (r: DrawCommand)
        ensures
            r == (DrawCommand::Image { texture: self.image.texture, position: self.image.bounding_box.position }),
    {
        self.image.draw()
    }

    pub fn move_horizontally(&mut self, x: i16)
        requires
            i16::MIN <= old(self).image.bounding_box.position.x + x <= i16::MAX,
        ensures
            final(self).image.texture == old(self).image.texture,
            final(self).image.bounding_box == moved_x(old(self).image.bounding_box, x as int),
    {
        self.image.move_horizontally(x)
    }

    pub fn right(&self) -> (r: i16)
        requires
            i16::MIN <= self.image.bounding_box.right_edge() <= i16::MAX,
        ensures
            r == self.image.bounding_box.right_edge(),
    {
        self.image.right()
    }
}

/// Total width of a row of sprites laid side by side.
pub open spec fn total_width(sprites: Seq<Cell>) -> int
    decreases sprites.len(),
{
    if sprites.len() == 0 {
        0
    } else {
        total_width(sprites.drop_last()) + sprites.last().frame.w
    }
}

/// The cells that `sheet` has for `names`, in order, skipping unknown names.
pub open spec fn known_cells(sheet: Map<Seq<char>, Cell>, names: Seq<Seq<char>>) -> Seq<Cell>
    decreases names.len(),
{
    if names.len() == 0 {
        Seq::empty()
    } else {
        let rest = known_cells(sheet, names.drop_last());
        if sheet.contains_key(names.last()) {
            rest.push(sheet[names.last()])
        } else {
            rest
        }
    }
}

/// The largest right edge of the boxes, or 0 when there are none.
pub open spec fn max_box_right(boxes: Seq<Rect>) -> int
    decreases boxes.len(),
{
    if boxes.len() == 0 {
        0
    } else if boxes.len() == 1 {
        boxes[0].right_edge()
    } else {
        let rest = max_box_right(boxes.drop_last());
        if boxes.last().right_edge() > rest {
            boxes.last().right_edge()
        } else {
            rest
        }
    }
}

/// Moving every box by `x` moves the largest right edge by `x`.
proof fn lemma_max_box_right_moved(boxes: Seq<Rect>, x: int)
    requires
        boxes.len() > 0,
        forall|j: int|
            0 <= j < boxes.len() ==> i16::MIN <= #[trigger] boxes[j].position.x + x <= i16::MAX,
    ensures
        max_box_right(boxes.map_values(|b: Rect| moved_x(b, x))) == max_box_right(boxes) + x,
    decreases boxes.len(),
{
    let moved = boxes.map_values(|b: Rect| moved_x(b, x));
    assert(moved[moved.len() - 1] == moved_x(boxes[boxes.len() - 1], x));
    if boxes.len() > 1 {
        let rest = boxes.drop_last();
        assert(moved.drop_last() =~= rest.map_values(|b: Rect| moved_x(b, x)));
        assert forall|j: int| 0 <= j < rest.len() implies i16::MIN <= #[trigger] rest[j].position.x + x <= i16::MAX by {
            assert(rest[j] == boxes[j]);
        }
        lemma_max_box_right_moved(rest, x);
    } else {
        assert(moved[0] == moved_x(boxes[0], x));
    }
}

/// The first of `boxes` that overlaps `r`.
pub open spec fn first_overlap(boxes: Seq<Rect>, r: Rect) -> Option<Rect>
    decreases boxes.len(),
{
    if boxes.len() == 0 {
        None
    } else if r.overlaps(&boxes[0]) {
        Some(boxes[0])
    } else {
        first_overlap(boxes.drop_first(), r)
    }
}

/// What drawing a row of tiles starting at `position` asks for.
pub open spec fn tile_commands(sprites: Seq<Cell>, position: Point) -> Seq<DrawCommand> {
    Seq::new(
        sprites.len(),
        |i: int|
            DrawCommand::Sprite {
                texture: Texture::Tiles,
                source: Rect::new_spec(sprites[i].frame.x, sprites[i].frame.y, sprites[i].frame.w, sprites[i].frame.h),
                destination: Rect::new_spec(
                    (position.x + total_width(sprites.take(i))) as i16,
                    position.y,
                    sprites[i].frame.w,
                    sprites[i].frame.h,
                ),
            },
    )
}

proof fn lemma_width_nonneg(sprites: Seq<Cell>)
    requires
        forall|j: int| 0 <= j < sprites.len() ==> #[trigger] sprites[j].in_bounds(),
    ensures
        0 <= total_width(sprites),
    decreases sprites.len(),
{
    if sprites.len() > 0 {
        assert(sprites.last().in_bounds());
        lemma_width_nonneg(sprites.drop_last());
    }
}

proof fn lemma_prefix_width(sprites: Seq<Cell>, i: int)
    requires
        0 <= i <= sprites.len(),
        forall|j: int| 0 <= j < sprites.len() ==> #[trigger] sprites[j].in_bounds(),
    ensures
        0 <= total_width(sprites.take(i)) <= total_width(sprites),
    decreases sprites.len(),
{
    if i < sprites.len() {
        assert(sprites.last().in_bounds());
        lemma_prefix_width(sprites.drop_last(), i);
        assert(sprites.drop_last().take(i) =~= sprites.take(i));
    } else {
        assert(sprites.take(i) =~= sprites);
        lemma_width_nonneg(sprites);
    }
}

/// A platform: a row of tiles with collision boxes, landable from above.
#[derive(Clone, Debug, PartialEq)]
pub struct Platform {
    pub sprites: Vec<Cell>,
    pub position: Point,
    pub bounding_boxes: Vec<Rect>,
}

impl Platform {
    /// Its tiles are in bounds, its boxes representable and landable, and
    /// its row of tiles fits on the axis.
    pub open spec fn wf(&self) -> bool {
        &&& forall|j: int| 0 <= j < self.sprites@.len() ==> #[trigger] self.sprites@[j].in_bounds()
        &&& self.position.x + total_width(self.sprites@) <= i16::MAX
        &&& total_width(self.sprites@) <= i16::MAX
        &&& forall|j: int|
            0 <= j < self.bounding_boxes@.len() ==> {
                let b = #[trigger] self.bounding_boxes@[j];
                &&& b.fits()
                &&& 0 <= b.width
                &&& LOWEST_LANDING <= b.position.y <= HEIGHT
            }
    }

    /// The rightmost edge of its boxes, or 0 without boxes.
    pub open spec fn spec_right(&self) -> int {
        max_box_right(self.bounding_boxes@)
    }

    /// A platform at `position` showing the tiles named `sprite_names` that
    /// the sheet has, with `bounding_boxes` given relative to `position`.
    pub fn new(sheet: &Sheet, position: Point, sprite_names: &[&str], bounding_boxes: &[Rect]) -> (r: Self)
        requires
            forall|j: int|
                0 <= j < bounding_boxes@.len() ==> {
                    let b = #[trigger] bounding_boxes@[j];
                    &&& i16::MIN <= b.position.x + position.x <= i16::MAX
                    &&& i16::MIN <= b.position.y + position.y <= i16::MAX
                },
        ensures
            r.position == position,
            r.sprites@ == known_cells(sheet@, sprite_names@.map_values(|n: &str| n@)),
            r.bounding_boxes@ == bounding_boxes@.map_values(|b: Rect| placed(b, position)),
    {
        let ghost names = sprite_names@.map_values(|n: &str| n@);
        let mut sprites: Vec<Cell> = Vec::new();
        let mut i: usize = 0;
        while i < sprite_names.len()
            invariant
                i <= sprite_names@.len(),
                names == sprite_names@.map_values(|n: &str| n@),
                sprites@ == known_cells(sheet@, names.take(i as int)),
            decreases sprite_names@.len() - i,
        {
            assert(names.take(i + 1).drop_last() =~= names.take(i as int));
            let name = String::from_str(sprite_names[i]);
            match sheet.cell(&name) {
                Some(cell) => sprites.push(cell),
                None => {},
            }
            i = i + 1;
        }
        assert(names.take(i as int) =~= names);
        let mut boxes: Vec<Rect> = Vec::new();
        let mut k: usize = 0;
        while k < bounding_boxes.len()
            invariant
                k <= bounding_boxes@.len(),
                forall|j: int|
                    0 <= j < bounding_boxes@.len() ==> {
                        let b = #[trigger] bounding_boxes@[j];
                        &&& i16::MIN <= b.position.x + position.x <= i16::MAX
                        &&& i16::MIN <= b.position.y + position.y <= i16::MAX
                    },
                boxes@ =~= bounding_boxes@.take(k as int).map_values(|b: Rect| placed(b, position)),
            decreases bounding_boxes@.len() - k,
        {
            let bounding_box = bounding_boxes[k];
            boxes.push(
                Rect::new_from_x_y(
                    bounding_box.x() + position.x,
                    bounding_box.y() + position.y,
                    bounding_box.width,
                    bounding_box.height,
                ),
            );
            k = k + 1;
            assert(boxes@ =~= bounding_boxes@.take(k as int).map_values(|b: Rect| placed(b, position)));
        }
        assert(bounding_boxes@.take(k as int) =~= bounding_boxes@);
        Platform { sprites, position, bounding_boxes: boxes }
    }

    pub fn bounding_boxes(&self) -> (r: &Vec<Rect>)
        ensures
            r@ == self.bounding_boxes@,
    {
        &self.bounding_boxes
    }

    /// The first box the character's collision box meets decides: moving
    /// down from above the platform lands on that box; anything else knocks
    /// the character out.
    pub fn check_intersection(&self, boy: &mut RedHatBoy)
        requires
            old(boy).wf(),
            self.wf(),
        ensures
            final(boy).wf(),
            final(boy).sprite_sheet@ == old(boy).sprite_sheet@,
            final(boy).state_machine@ == match first_overlap(self.bounding_boxes@, old(boy).spec_bounding_box()) {
                None => old(boy).state_machine@,
                Some(b) => {
                    let c = old(boy).state_machine@.context;
                    if c.velocity.y > 0 && c.position.y < self.position.y {
                        step(old(boy).state_machine@, Event::Land(b.position.y))
                    } else {
                        step(old(boy).state_machine@, Event::KnockOut)
                    }
                },
            },
    {
        let boy_box = boy.bounding_box();
        let ghost boxes = self.bounding_boxes@;
        let mut i: usize = 0;
        assert(boxes.subrange(0, boxes.len() as int) =~= boxes);
        while i < self.bounding_boxes.len()
            invariant
                i <= boxes.len(),
                boxes == self.bounding_boxes@,
                self.wf(),
                boy_box.fits(),
                boy_box == old(boy).spec_bounding_box(),
                boy.wf(),
                boy.state_machine@ == old(boy).state_machine@,
                boy.sprite_sheet@ == old(boy).sprite_sheet@,
                first_overlap(boxes, boy_box) == first_overlap(boxes.subrange(i as int, boxes.len() as int), boy_box),
            decreases boxes.len() - i,
        {
            let bounding_box = &self.bounding_boxes[i];
            assert(boxes.subrange(i as int, boxes.len() as int).drop_first() =~= boxes.subrange(i + 1, boxes.len() as int));
            if boy_box.intersects(bounding_box) {
                if boy.velocity_y() > 0 && boy.pos_y() < self.position.y {
                    boy.land_on(bounding_box.y());
                } else {
                    boy.knock_out();
                }
                return;
            }
            i = i + 1;
        }
        assert(boxes.subrange(i as int, boxes.len() as int) =~= Seq::<Rect>::empty());
    }

    /// Each tile, laid left to right from the platform's position.
    pub fn draw(&self) -> (r: Vec<DrawCommand>)
        requires
            self.wf(),
        ensures
            r@ == tile_commands(self.sprites@, self.position),
    {
        let ghost sprites = self.sprites@;
        let mut commands: Vec<DrawCommand> = Vec::new();
        let mut x: i16 = 0;
        let mut i: usize = 0;
        while i < self.sprites.len()
            invariant
                i <= sprites.len(),
                sprites == self.sprites@,
                self.wf(),
                x == total_width(sprites.take(i as int)),
                commands@ =~= tile_commands(sprites, self.position).take(i as int),
            decreases sprites.len() - i,
        {
            let sprite = self.sprites[i];
            proof {
                lemma_prefix_width(sprites, i as int);
                lemma_prefix_width(sprites, i + 1);
                assert(sprites.take(i + 1).drop_last() =~= sprites.take(i as int));
                assert(sprites[i as int].in_bounds());
            }
            commands.push(
                DrawCommand::Sprite {
                    texture: Texture::Tiles,
                    source: Rect::new_from_x_y(sprite.frame.x, sprite.frame.y, sprite.frame.w, sprite.frame.h),
                    destination: Rect::new_from_x_y(self.position.x + x, self.position.y, sprite.frame.w, sprite.frame.h),
                },
            );
            x = x + sprite.frame.w;
            i = i + 1;
            assert(commands@ =~= tile_commands(sprites, self.position).take(i as int));
        }
        assert(tile_commands(sprites, self.position).take(i as int) =~= tile_commands(sprites, self.position));
        commands
    }

    pub fn move_horizontally(&mut self, x: i16)
        requires
            i16::MIN <= old(self).position.x + x <= i16::MAX,
            forall|j: int|
                0 <= j < old(self).bounding_boxes@.len() ==>
                    i16::MIN <= #[trigger] old(self).bounding_boxes@[j].position.x + x <= i16::MAX,
        ensures
            final(self).sprites@ == old(self).sprites@,
            final(self).position == (Point { x: (old(self).position.x + x) as i16, y: old(self).position.y }),
            final(self).bounding_boxes@ == old(self).bounding_boxes@.map_values(|b: Rect| moved_x(b, x as int)),
    {
        self.position.x = self.position.x + x;
        let ghost boxes = self.bounding_boxes@;
        let mut i: usize = 0;
        while i < self.bounding_boxes.len()
            invariant
                i <= boxes.len(),
                self.sprites@ == old(self).sprites@,
                self.position == (Point { x: (old(self).position.x + x) as i16, y: old(self).position.y }),
                boxes == old(self).bounding_boxes@,
                self.bounding_boxes@.len() == boxes.len(),
                forall|j: int| 0 <= j < boxes.len() ==> i16::MIN <= #[trigger] boxes[j].position.x + x <= i16::MAX,
                forall|j: int| 0 <= j < i ==> self.bounding_boxes@[j] == moved_x(boxes[j], x as int),
                forall|j: int| i <= j < boxes.len() ==> self.bounding_boxes@[j] == boxes[j],
            decreases boxes.len() - i,
        {
            let mut bounding_box = self.bounding_boxes[i];
            assert(bounding_box == boxes[i as int]);
            bounding_box.set_x(bounding_box.position.x + x);
            self.bounding_boxes.set(i, bounding_box);
            i = i + 1;
        }
        assert(self.bounding_boxes@ =~= boxes.map_values(|b: Rect| moved_x(b, x as int)));
    }

    pub fn right(&self) -> (r: i16)
        requires
            self.wf(),
        ensures
            r == self.spec_right(),
    {
        let ghost boxes = self.bounding_boxes@;
        if self.bounding_boxes.len() == 0 {
            return 0;
        }
        let mut best = self.bounding_boxes[0].right();
        let mut i: usize = 1;
        assert(boxes.take(1).drop_last() =~= boxes.take(0));
        while i < self.bounding_boxes.len()
            invariant
                1 <= i <= boxes.len(),
                boxes == self.bounding_boxes@,
                self.wf(),
                best == max_box_right(boxes.take(i as int)),
            decreases boxes.len() - i,
        {
            assert(boxes.take(i + 1).drop_last() =~= boxes.take(i as int));
            let right = self.bounding_boxes[i].right();
            if right > best {
                best = right;
            }
            i = i + 1;
        }
        assert(boxes.take(i as int) =~= boxes);
        best
    }
}

/// Meeting a barrier knocks a running, sliding or jumping character out,
/// whichever way it moves. Meeting a platform lands a character that moves
/// down from above it on the box it met (a runner or jumper then runs);
/// any other contact knocks it out. No contact changes nothing.
pub proof fn lemma_collision_outcomes(o: Obstacle, b: BoyView, boy_box: Rect)
    requires
        o.wf(),
        b.wf(),
        b.phase == Phase::Running || b.phase == Phase::Sliding || b.phase == Phase::Jumping,
    ensures
        o is Barrier ==> (o.collision(b, boy_box).phase == Phase::Falling <==> boy_box.overlaps(&o->Barrier_0.image.bounding_box)),
        o is Barrier && !boy_box.overlaps(&o->Barrier_0.image.bounding_box) ==> o.collision(b, boy_box) == b,
        o is Platform ==> match first_overlap(o->Platform_0.bounding_boxes@, boy_box) {
            None => o.collision(b, boy_box) == b,
            Some(landing) => if b.context.velocity.y > 0 && b.context.position.y < o->Platform_0.position.y {
                &&& o.collision(b, boy_box).phase == (if b.phase == Phase::Sliding { Phase::Sliding } else { Phase::Running })
                &&& o.collision(b, boy_box).context.position.y == landing.position.y - PLAYER_HEIGHT
            } else {
                o.collision(b, boy_box).phase == Phase::Falling
            },
        },
{
    if o is Platform {
        lemma_first_overlap_is_a_box(o->Platform_0.bounding_boxes@, boy_box);
    }
}

/// The first overlapping box is one of the boxes, and overlaps.
pub proof fn lemma_first_overlap_is_a_box(boxes: Seq<Rect>, r: Rect)
    ensures
        first_overlap(boxes, r) matches Some(b) ==> boxes.contains(b) && r.overlaps(&b),
    decreases boxes.len(),
{
    if boxes.len() > 0 && !r.overlaps(&boxes[0]) {
        lemma_first_overlap_is_a_box(boxes.drop_first(), r);
        if let Some(b) = first_overlap(boxes, r) {
            let i = choose|i: int| 0 <= i < boxes.drop_first().len() && boxes.drop_first()[i] == b;
            assert(boxes[i + 1] == b);
        }
    }
}

/// Widening the interval keeps an obstacle within it.
pub proof fn lemma_spans_widen(o: Obstacle, lo: int, hi: int, lo2: int, hi2: int)
    requires
        o.spans(lo, hi),
        lo2 <= lo,
        hi <= hi2,
    ensures
        o.spans(lo2, hi2),
{
}

/// An obstacle in the walk.
#[derive(Clone, Debug, PartialEq)]
pub enum Obstacle {
    Barrier(Barrier),
    Platform(Platform),
}

impl Obstacle {
    pub open spec fn wf(&self) -> bool {
        match self {
            Obstacle::Barrier(b) => {
                &&& b.image.bounding_box.fits()
                &&& 0 <= b.image.bounding_box.width <= MAX_EXTENT
            },
            Obstacle::Platform(p) => p.wf(),
        }
    }

    /// Whether the obstacle occupies any place: a platform needs a box.
    pub open spec fn has_extent(&self) -> bool {
        match self {
            Obstacle::Barrier(_) => true,
            Obstacle::Platform(p) => p.bounding_boxes@.len() > 0,
        }
    }

    pub open spec fn spec_right(&self) -> int {
        match self {
            Obstacle::Barrier(b) => b.image.bounding_box.right_edge(),
            Obstacle::Platform(p) => p.spec_right(),
        }
    }

    /// Everything the obstacle occupies or draws lies between `lo` and `hi` on the x axis.
    pub open spec fn spans(&self, lo: int, hi: int) -> bool {
        match self {
            Obstacle::Barrier(b) => {
                &&& lo <= b.image.bounding_box.position.x
                &&& b.image.bounding_box.right_edge() <= hi
            },
            Obstacle::Platform(p) => {
                &&& lo <= p.position.x
                &&& p.position.x + total_width(p.sprites@) <= hi
                &&& forall|j: int|
                    0 <= j < p.bounding_boxes@.len() ==> {
                        let b = #[trigger] p.bounding_boxes@[j];
                        lo <= b.position.x && b.right_edge() <= hi
                    }
            },
        }
    }

    /// What meeting this obstacle does to a character whose collision box is `boy_box`.
    pub open spec fn collision(&self, b: BoyView, boy_box: Rect) -> BoyView {
        match self {
            Obstacle::Barrier(barrier) => if boy_box.overlaps(&barrier.image.bounding_box) {
                step(b, Event::KnockOut)
            } else {
                b
            },
            Obstacle::Platform(p) => match first_overlap(p.bounding_boxes@, boy_box) {
                None => b,
                Some(landing) => if b.context.velocity.y > 0 && b.context.position.y < p.position.y {
                    step(b, Event::Land(landing.position.y))
                } else {
                    step(b, Event::KnockOut)
                },
            },
        }
    }

    /// What drawing this obstacle asks for.
    pub open spec fn commands(&self) -> Seq<DrawCommand> {
        match self {
            Obstacle::Barrier(b) => seq![DrawCommand::Image { texture: b.image.texture, position: b.image.bounding_box.position }],
            Obstacle::Platform(p) => tile_commands(p.sprites@, p.position),
        }
    }

    pub fn check_intersection(&self, boy: &mut RedHatBoy)
        requires
            old(boy).wf(),
            self.wf(),
        ensures
            final(boy).wf(),
            final(boy).sprite_sheet@ == old(boy).sprite_sheet@,
            final(boy).state_machine@ == self.collision(old(boy).state_machine@, old(boy).spec_bounding_box()),
    {
        match self {
            Obstacle::Barrier(b) => b.check_intersection(boy),
            Obstacle::Platform(p) => p.check_intersection(boy),
        }
    }

    pub fn draw(&self) -> (r: Vec<DrawCommand>)
        requires
            self.wf(),
        ensures
            r@ == self.commands(),
    {
        match self {
            Obstacle::Barrier(b) => {
                let mut commands = Vec::new();
                commands.push(b.draw());
                commands
            },
            Obstacle::Platform(p) => p.draw(),
        }
    }

    /// Move the obstacle `x` to the right.
    pub fn move_horizontally(&mut self, x: i16)
        requires
            old(self).wf(),
            old(self).spans(i16::MIN - x, i16::MAX - x),
        ensures
            final(self).wf(),
            final(self).spec_right() == if old(self).has_extent() {
                old(self).spec_right() + x
            } else {
                0
            },
            final(self).has_extent() == old(self).has_extent(),
            forall|lo: int, hi: int| #[trigger] old(self).spans(lo, hi) ==> final(self).spans(lo + x, hi + x),
            final(self).collision_boxes_moved(old(self), x as int),
    {
        let ghost old_right = self.spec_right();
        match self {
            Obstacle::Barrier(b) => {
                let ghost before = b.image.bounding_box;
                b.move_horizontally(x);
                assert(b.image.bounding_box.position.x == before.position.x + x);
                assert(b.image.bounding_box.right_edge() == before.right_edge() + x);
                assert(b.image.bounding_box.fits());
                assert(b.image.bounding_box.right_edge() == old_right + x);
            },
            Obstacle::Platform(p) => {
                let ghost before = p.bounding_boxes@;
                proof {
                    lemma_width_nonneg(p.sprites@);
                }
                p.move_horizontally(x);
                proof {
                    if before.len() > 0 {
                        lemma_max_box_right_moved(before, x as int);
                    }
                }
                assert(before.len() > 0 ==> p.spec_right() == old_right + x);
            },
        }
    }

    /// This obstacle is `old` moved `x` to the right.
    pub open spec fn collision_boxes_moved(&self, old: &Obstacle, x: int) -> bool {
        match (self, old) {
            (Obstacle::Barrier(b), Obstacle::Barrier(o)) => b.image.bounding_box == moved_x(o.image.bounding_box, x)
                && b.image.texture == o.image.texture,
            (Obstacle::Platform(p), Obstacle::Platform(o)) => {
                &&& p.sprites@ == o.sprites@
                &&& p.position == (Point { x: (o.position.x + x) as i16, y: o.position.y })
                &&& p.bounding_boxes@ == o.bounding_boxes@.map_values(|b: Rect| moved_x(b, x))
            },
            _ => false,
        }
    }

    pub fn right(&self) -> (r: i16)
        requires
            self.wf(),
        ensures
            r == self.spec_right(),
    {
        match self {
            Obstacle::Barrier(b) => b.right(),
            Obstacle::Platform(p) => p.right(),
        }
    }
}

} // verus!
