//! The walk: the character, the scrolling backgrounds, the obstacles and the
//! timeline up to which obstacles have been generated.
use crate::draw::DrawCommand;
use crate::error::GameError;
use crate::geometry::Point;
use crate::obstacle::{moved_x, Image, Obstacle, Picture};
use crate::red_hat_boy::{collision_box, RedHatBoy};
use crate::red_hat_boy_machine::{step, Event};
use crate::red_hat_boy_states::{view_of, BoyView, RedHatBoyContext, RUNNING_SPEED};
use crate::segment::{
    is_other_platform, is_stone_and_platform, max_right, other_platform, rightmost,
    stone_and_platform, tiles_in_bounds,
};
use crate::sheet::{Cell, Sheet, MAX_EXTENT};
use rand::Rng;
use vstd::prelude::*;

verus! {

/// Below this timeline a new segment is generated.
pub const TIMELINE_MINIMUM: i16 = 1000;
/// Gap between the timeline and the next segment.
pub const OBSTACLE_BUFFER: i16 = 20;
/// Largest right edge an obstacle of the walk may have.
pub const RIGHT_LIMIT: i16 = 4096;
/// Largest distance of any part of an obstacle from its right edge.
pub const SPAN: i16 = 8192;

/// An obstacle as the walk keeps it: well formed, within reach of its right
/// edge, and not yet scrolled far off screen.
pub open spec fn obstacle_ok(o: Obstacle) -> bool {
    &&& o.wf()
    &&& o.has_extent()
    &&& o.spans(o.spec_right() - SPAN, o.spec_right() + SPAN)
    &&& -RUNNING_SPEED < o.spec_right() <= RIGHT_LIMIT
}

/// The two background tiles: equally wide, side by side, the left one
/// starting at most one width left of the screen.
pub open spec fn backgrounds_ok(a: Image, b: Image) -> bool {
    let w = a.bounding_box.width;
    &&& b.bounding_box.width == w
    &&& RUNNING_SPEED <= w <= MAX_EXTENT
    &&& a.bounding_box.fits()
    &&& b.bounding_box.fits()
    &&& {
        ||| (b.bounding_box.position.x == a.bounding_box.position.x + w && -w <= a.bounding_box.position.x <= 0)
        ||| (a.bounding_box.position.x == b.bounding_box.position.x + w && -w <= b.bounding_box.position.x <= 0)
    }
}

/// `a` with its left edge at `x`.
pub open spec fn image_at(a: Image, x: int) -> Image {
    Image { texture: a.texture, bounding_box: moved_x(a.bounding_box, x - a.bounding_box.position.x) }
}

/// Both tiles scrolled by `velocity`; a tile that left the screen moves to
/// follow the other one.
pub open spec fn scrolled(a: Image, b: Image, velocity: int) -> (Image, Image) {
    let a1 = image_at(a, a.bounding_box.position.x + velocity);
    let b1 = image_at(b, b.bounding_box.position.x + velocity);
    let a2 = if a1.bounding_box.right_edge() < 0 { image_at(a1, b1.bounding_box.right_edge()) } else { a1 };
    let b2 = if b1.bounding_box.right_edge() < 0 { image_at(b1, a2.bounding_box.right_edge()) } else { b1 };
    (a2, b2)
}

/// The obstacles that are still on screen, in their order.
pub open spec fn on_screen(s: Seq<Obstacle>) -> Seq<Obstacle>
    decreases s.len(),
{
    if s.len() == 0 {
        Seq::empty()
    } else if s[0].spec_right() > 0 {
        seq![s[0]] + on_screen(s.drop_first())
    } else {
        on_screen(s.drop_first())
    }
}

/// A character meeting each obstacle of `s` in turn.
pub open spec fn collide_all(s: Seq<Obstacle>, b: BoyView, sheet: Map<Seq<char>, Cell>) -> BoyView
    decreases s.len(),
{
    if s.len() == 0 {
        b
    } else {
        let before = collide_all(s.drop_last(), b, sheet);
        s.last().collision(before, collision_box(before, sheet))
    }
}

/// Pruning keeps exactly the obstacles whose right edge is past the left
/// edge of the screen, in their order: each kept one is on screen, each one
/// on screen is kept, and kept ones come in the order they had.
pub proof fn lemma_on_screen(s: Seq<Obstacle>)
    ensures
        on_screen(s).len() <= s.len(),
        forall|i: int| 0 <= i < on_screen(s).len() ==> #[trigger] on_screen(s)[i].spec_right() > 0,
        forall|i: int| 0 <= i < s.len() && s[i].spec_right() > 0 ==> on_screen(s).contains(#[trigger] s[i]),
        forall|i: int|
            0 <= i < on_screen(s).len() ==> exists|j: int| 0 <= j < s.len() && s[j] == #[trigger] on_screen(s)[i],
    decreases s.len(),
{
    if s.len() > 0 {
        let rest = s.drop_first();
        lemma_on_screen(rest);
        let k = on_screen(s);
        let kr = on_screen(rest);
        assert forall|i: int| 0 <= i < s.len() && s[i].spec_right() > 0 implies k.contains(#[trigger] s[i]) by {
            if i == 0 {
                assert(k[0] == s[0]);
            } else {
                assert(s[i] == rest[i - 1]);
                let m = choose|m: int| 0 <= m < kr.len() && kr[m] == rest[i - 1];
                if s[0].spec_right() > 0 {
                    assert(k[m + 1] == kr[m]);
                } else {
                    assert(k[m] == kr[m]);
                }
            }
        }
        assert forall|i: int| 0 <= i < k.len() implies exists|j: int| 0 <= j < s.len() && s[j] == #[trigger] k[i] by {
            if s[0].spec_right() > 0 {
                if i == 0 {
                    assert(s[0] == k[0]);
                } else {
                    assert(k[i] == kr[i - 1]);
                    let j = choose|j: int| 0 <= j < rest.len() && rest[j] == kr[i - 1];
                    assert(s[j + 1] == k[i]);
                }
            } else {
                assert(k[i] == kr[i]);
                let j = choose|j: int| 0 <= j < rest.len() && rest[j] == kr[i];
                assert(s[j + 1] == k[i]);
            }
        }
    }
}

/// The character after a tick's input (slide, run, jump, in that order)
/// and its own update.
pub open spec fn after_input(b: BoyView, right: bool, down: bool, space: bool) -> BoyView {
    let b1 = if down { step(b, Event::Slide) } else { b };
    let b2 = if right { step(b1, Event::Run) } else { b1 };
    let b3 = if space { step(b2, Event::Jump) } else { b2 };
    step(b3, Event::Update)
}

/// The character with its jump sound handed out.
pub open spec fn without_sound(b: BoyView) -> BoyView {
    view_of(b.phase, RedHatBoyContext { jump_sound_pending: false, ..b.context })
}

/// `new` is `old` after one tick of walking, `moved` being the obstacles that
/// were still on screen, moved by the scroll velocity.
pub open spec fn walked(old: Walk, moved: Seq<Obstacle>, new: Walk, right: bool, down: bool, space: bool) -> bool {
    let b = without_sound(after_input(old.boy.state_machine@, right, down, space));
    let v = -b.context.velocity.x;
    let kept = on_screen(old.obstacles@);
    &&& (new.backgrounds@[0], new.backgrounds@[1]) == scrolled(old.backgrounds@[0], old.backgrounds@[1], v)
    &&& moved.len() == kept.len()
    &&& forall|j: int| 0 <= j < moved.len() ==> #[trigger] moved[j].collision_boxes_moved(&kept[j], v)
    &&& new.boy.state_machine@ == collide_all(moved, b, old.boy.sprite_sheet@)
    &&& new.boy.sprite_sheet@ == old.boy.sprite_sheet@
    &&& new.stone == old.stone
    &&& new.obstacle_sheet@ == old.obstacle_sheet@
    &&& if old.timeline < TIMELINE_MINIMUM {
        let added = new.obstacles@.subrange(moved.len() as int, new.obstacles@.len() as int);
        let offset = old.timeline + OBSTACLE_BUFFER;
        &&& moved.len() <= new.obstacles@.len()
        &&& new.obstacles@.subrange(0, moved.len() as int) == moved
        &&& (is_stone_and_platform(added, old.stone, old.obstacle_sheet@, offset) || is_other_platform(
            added,
            old.obstacle_sheet@,
            offset,
        ))
        &&& new.timeline == max_right(added)
    } else {
        &&& new.obstacles@ == moved
        &&& new.timeline == old.timeline + v
    }
}

/// The walk of one game.
pub struct Walk {
    pub boy: RedHatBoy,
    pub backgrounds: [Image; 2],
    pub obstacle_sheet: Sheet,
    pub obstacles: Vec<Obstacle>,
    pub stone: Picture,
    pub timeline: i16,
}

impl Walk {
    pub open spec fn wf(&self) -> bool {
        &&& self.boy.wf()
        &&& backgrounds_ok(self.backgrounds@[0], self.backgrounds@[1])
        &&& self.stone.in_bounds()
        &&& tiles_in_bounds(self.obstacle_sheet@)
        &&& forall|j: int| 0 <= j < self.obstacles@.len() ==> #[trigger] obstacle_ok(self.obstacles@[j])
        &&& 0 <= self.timeline <= RIGHT_LIMIT
    }

    /// How fast the world scrolls: against the character's running speed.
    pub fn velocity(&self) -> (r: i16)
        requires
            self.boy.wf(),
        ensures
            r == -self.boy.state_machine@.context.velocity.x,
            -RUNNING_SPEED <= r <= 0,
    {
        -self.boy.walking_speed()
    }

    /// Scroll both background tiles by `velocity`, keeping them an endless loop.
    pub fn scroll_backgrounds(&mut self, velocity: i16)
        requires
            old(self).wf(),
            -RUNNING_SPEED <= velocity <= 0,
        ensures
            final(self).wf(),
            (final(self).backgrounds@[0], final(self).backgrounds@[1]) == scrolled(
                old(self).backgrounds@[0],
                old(self).backgrounds@[1],
                velocity as int,
            ),
            final(self).boy == old(self).boy,
            final(self).obstacles@ == old(self).obstacles@,
            final(self).timeline == old(self).timeline,
            final(self).stone == old(self).stone,
            final(self).obstacle_sheet@ == old(self).obstacle_sheet@,
    {
        let mut first = self.backgrounds[0];
        let mut second = self.backgrounds[1];
        first.move_horizontally(velocity);
        second.move_horizontally(velocity);
        if first.right() < 0 {
            first.set_x(second.right());
        }
        if second.right() < 0 {
            second.set_x(first.right());
        }
        self.backgrounds = [first, second];
    }

    /// Drop the obstacles that have scrolled off the left edge.
    pub fn remove_passed_obstacles(&mut self)
        requires
            old(self).wf(),
        ensures
            final(self).wf(),
            final(self).obstacles@ == on_screen(old(self).obstacles@),
            forall|j: int| 0 <= j < final(self).obstacles@.len() ==> #[trigger] final(self).obstacles@[j].spec_right() > 0,
            final(self).boy == old(self).boy,
            final(self).backgrounds == old(self).backgrounds,
            final(self).timeline == old(self).timeline,
            final(self).stone == old(self).stone,
            final(self).obstacle_sheet@ == old(self).obstacle_sheet@,
    {
        let mut rest: Vec<Obstacle> = Vec::new();
        std::mem::swap(&mut rest, &mut self.obstacles);
        let ghost all = rest@;
        let mut kept: Vec<Obstacle> = Vec::new();
        while rest.len() > 0
            invariant
                forall|j: int| 0 <= j < all.len() ==> #[trigger] obstacle_ok(all[j]),
                rest@.len() <= all.len(),
                rest@ == all.subrange(all.len() - rest@.len(), all.len() as int),
                kept@ + on_screen(rest@) == on_screen(all),
                forall|j: int| 0 <= j < kept@.len() ==> obstacle_ok(#[trigger] kept@[j]) && kept@[j].spec_right() > 0,
                self.obstacles@.len() == 0,
            decreases rest@.len(),
        {
            let ghost before = rest@;
            let obstacle = rest.remove(0);
            assert(before.drop_first() =~= rest@);
            assert(obstacle == all[all.len() - before.len()]);
            assert(obstacle_ok(all[all.len() - before.len()]));
            assert(rest@ =~= all.subrange(all.len() - rest@.len(), all.len() as int));
            if obstacle.right() > 0 {
                kept.push(obstacle);
                assert(kept@ + on_screen(rest@) =~= on_screen(all));
            }
        }
        assert(on_screen(rest@) =~= Seq::<Obstacle>::empty());
        assert(kept@ =~= on_screen(all));
        self.obstacles = kept;
    }

    /// Move every obstacle by `velocity`, and let each in turn meet the character.
    pub fn move_obstacles(&mut self, velocity: i16)
        requires
            old(self).wf(),
            -RUNNING_SPEED <= velocity <= 0,
            forall|j: int| 0 <= j < old(self).obstacles@.len() ==> #[trigger] old(self).obstacles@[j].spec_right() > 0,
        ensures
            final(self).wf(),
            final(self).obstacles@.len() == old(self).obstacles@.len(),
            forall|j: int|
                0 <= j < final(self).obstacles@.len() ==> #[trigger] final(self).obstacles@[j].collision_boxes_moved(
                    &old(self).obstacles@[j],
                    velocity as int,
                ),
            final(self).boy.state_machine@ == collide_all(
                final(self).obstacles@,
                old(self).boy.state_machine@,
                old(self).boy.sprite_sheet@,
            ),
            final(self).boy.sprite_sheet@ == old(self).boy.sprite_sheet@,
            final(self).backgrounds == old(self).backgrounds,
            final(self).timeline == old(self).timeline,
            final(self).stone == old(self).stone,
            final(self).obstacle_sheet@ == old(self).obstacle_sheet@,
    {
        let mut rest: Vec<Obstacle> = Vec::new();
        std::mem::swap(&mut rest, &mut self.obstacles);
        let ghost all = rest@;
        let ghost b0 = self.boy.state_machine@;
        let ghost sheet = self.boy.sprite_sheet@;
        let mut done: Vec<Obstacle> = Vec::new();
        while rest.len() > 0
            invariant
                forall|j: int| 0 <= j < all.len() ==> #[trigger] obstacle_ok(all[j]) && all[j].spec_right() > 0,
                -RUNNING_SPEED <= velocity <= 0,
                rest@.len() <= all.len(),
                done@.len() == all.len() - rest@.len(),
                rest@ == all.subrange(all.len() - rest@.len(), all.len() as int),
                forall|j: int| 0 <= j < done@.len() ==> #[trigger] done@[j].collision_boxes_moved(&all[j], velocity as int),
                forall|j: int| 0 <= j < done@.len() ==> obstacle_ok(#[trigger] done@[j]),
                self.boy.wf(),
                self.boy.sprite_sheet@ == sheet,
                self.boy.state_machine@ == collide_all(done@, b0, sheet),
                self.obstacles@.len() == 0,
                self.backgrounds == old(self).backgrounds,
                self.timeline == old(self).timeline,
                self.stone == old(self).stone,
                self.obstacle_sheet@ == old(self).obstacle_sheet@,
            decreases rest@.len(),
        {
            let ghost before = rest@;
            let ghost k = all.len() - before.len();
            let mut obstacle = rest.remove(0);
            assert(before.drop_first() =~= rest@);
            assert(obstacle == all[k]);
            assert(obstacle_ok(all[k]) && all[k].spec_right() > 0);
            assert(rest@ =~= all.subrange(all.len() - rest@.len(), all.len() as int));
            proof {
                crate::obstacle::lemma_spans_widen(
                    obstacle,
                    obstacle.spec_right() - SPAN,
                    obstacle.spec_right() + SPAN,
                    i16::MIN - velocity,
                    i16::MAX - velocity,
                );
            }
            obstacle.move_horizontally(velocity);
            obstacle.check_intersection(&mut self.boy);
            let ghost done_before = done@;
            done.push(obstacle);
            assert(done@.drop_last() =~= done_before);
        }
        self.obstacles = done;
    }

    /// Append the segment numbered `choice` (0: a stone and a low platform,
    /// 1: a high platform, any other: nothing) at the timeline plus the
    /// buffer, and move the timeline to the segment's right edge.
    pub fn generate_segment(&mut self, choice: u8)
        requires
            old(self).wf(),
            old(self).timeline < TIMELINE_MINIMUM,
        ensures
            final(self).wf(),
            final(self).obstacles@.len() >= old(self).obstacles@.len(),
            final(self).obstacles@.subrange(0, old(self).obstacles@.len() as int) == old(self).obstacles@,
            ({
                let added = final(self).obstacles@.subrange(old(self).obstacles@.len() as int, final(self).obstacles@.len() as int);
                let offset = old(self).timeline + OBSTACLE_BUFFER;
                &&& choice == 0 ==> is_stone_and_platform(added, old(self).stone, old(self).obstacle_sheet@, offset)
                &&& choice == 1 ==> is_other_platform(added, old(self).obstacle_sheet@, offset)
                &&& choice > 1 ==> added.len() == 0
                &&& final(self).timeline == max_right(added)
            }),
            choice < 2 ==> final(self).timeline >= old(self).timeline + OBSTACLE_BUFFER,
            final(self).boy == old(self).boy,
            final(self).backgrounds == old(self).backgrounds,
            final(self).stone == old(self).stone,
            final(self).obstacle_sheet@ == old(self).obstacle_sheet@,
    {
        let offset = self.timeline + OBSTACLE_BUFFER;
        let mut next_obstacles = if choice == 0 {
            stone_and_platform(self.stone, &self.obstacle_sheet, offset)
        } else if choice == 1 {
            other_platform(&self.obstacle_sheet, offset)
        } else {
            Vec::new()
        };
        let ghost added = next_obstacles@;
        self.timeline = rightmost(&next_obstacles);
        proof {
            crate::segment::lemma_max_right(added);
            assert forall|j: int| 0 <= j < added.len() implies #[trigger] obstacle_ok(added[j]) by {
                assert(crate::segment::placed_in_segment(added[j], offset as int));
            }
        }
        let ghost before = self.obstacles@;
        self.obstacles.append(&mut next_obstacles);
        assert(self.obstacles@.subrange(0, before.len() as int) =~= before);
        assert(self.obstacles@.subrange(before.len() as int, self.obstacles@.len() as int) =~= added);
        assert forall|j: int| 0 <= j < self.obstacles@.len() implies #[trigger] obstacle_ok(self.obstacles@[j]) by {
            if j >= before.len() {
                assert(self.obstacles@[j] == added[j - before.len()]);
            } else {
                assert(self.obstacles@[j] == before[j]);
            }
        }
    }

    /// Generate the next segment, chosen at random between the two kinds.
    pub fn generate_next_segment(&mut self)
        requires
            old(self).wf(),
            old(self).timeline < TIMELINE_MINIMUM,
        ensures
            final(self).wf(),
            final(self).obstacles@.len() >= old(self).obstacles@.len(),
            final(self).obstacles@.subrange(0, old(self).obstacles@.len() as int) == old(self).obstacles@,
            ({
                let added = final(self).obstacles@.subrange(old(self).obstacles@.len() as int, final(self).obstacles@.len() as int);
                let offset = old(self).timeline + OBSTACLE_BUFFER;
                &&& (is_stone_and_platform(added, old(self).stone, old(self).obstacle_sheet@, offset)
                    || is_other_platform(added, old(self).obstacle_sheet@, offset))
                &&& final(self).timeline == max_right(added)
            }),
            final(self).timeline >= old(self).timeline + OBSTACLE_BUFFER,
            final(self).boy == old(self).boy,
            final(self).backgrounds == old(self).backgrounds,
            final(self).stone == old(self).stone,
            final(self).obstacle_sheet@ == old(self).obstacle_sheet@,
    {
        let choice = random_segment();
        self.generate_segment(choice);
    }

    pub fn knocked_out(&self) -> (r: bool)
        ensures
            r == (self.boy.state_machine@.phase == crate::red_hat_boy_states::Phase::KnockedOut),
    {
        self.boy.knocked_out()
    }

    /// A walk at its start: `boy` fresh, the background tiled from the left
    /// edge, and the first segment at offset 0.
    pub fn new(boy: RedHatBoy, background: Picture, stone: Picture, obstacle_sheet: Sheet) -> (r: Result<Walk, GameError>)
        requires
            boy.wf(),
        ensures
            r is Ok <==> (RUNNING_SPEED <= background.width && background.in_bounds() && stone.in_bounds()
                && tiles_in_bounds(obstacle_sheet@)),
            r matches Err(e) ==> e == if background.in_bounds() && RUNNING_SPEED <= background.width && stone.in_bounds() {
                GameError::MissingTile
            } else {
                GameError::ImageOutOfBounds
            },
            r matches Ok(w) ==> {
                &&& w.wf()
                &&& w.has_first_segment()
                &&& w.boy.state_machine@ == boy.state_machine@
                &&& w.boy.sprite_sheet@ == boy.sprite_sheet@
                &&& w.stone == stone
                &&& w.obstacle_sheet@ == obstacle_sheet@
                &&& w.backgrounds@[0] == Image::new_spec(background, Point { x: 0, y: 0 })
                &&& w.backgrounds@[1] == Image::new_spec(background, Point { x: background.width, y: 0 })
            },
    {
        if background.width < RUNNING_SPEED || background.width > MAX_EXTENT || background.height < 0
            || background.height > MAX_EXTENT || stone.width < 0 || stone.width > MAX_EXTENT || stone.height < 0
            || stone.height > MAX_EXTENT {
            return Err(GameError::ImageOutOfBounds);
        }
        if !crate::segment::tiles_fit(&obstacle_sheet) {
            return Err(GameError::MissingTile);
        }
        let starting_obstacles = stone_and_platform(stone, &obstacle_sheet, 0);
        let timeline = rightmost(&starting_obstacles);
        proof {
            crate::segment::lemma_max_right(starting_obstacles@);
        }
        let walk = Walk {
            boy,
            backgrounds: [
                Image::new(background, Point { x: 0, y: 0 }),
                Image::new(background, Point { x: background.width, y: 0 }),
            ],
            obstacle_sheet,
            obstacles: starting_obstacles,
            stone,
            timeline,
        };
        Ok(walk)
    }

    /// The walk is at its start: a fresh character, the first segment at
    /// offset 0, and the timeline at that segment's right edge.
    pub open spec fn is_fresh(&self) -> bool {
        &&& self.boy.state_machine@ == crate::red_hat_boy_states::view_of(
            crate::red_hat_boy_states::Phase::Idle,
            crate::red_hat_boy_states::initial_context(),
        )
        &&& self.has_first_segment()
    }

    /// The obstacles are the first segment at offset 0, and the timeline is
    /// at its right edge.
    pub open spec fn has_first_segment(&self) -> bool {
        &&& is_stone_and_platform(self.obstacles@, self.stone, self.obstacle_sheet@, 0)
        &&& self.timeline == max_right(self.obstacles@)
    }

    /// Start over: a fresh character and the first segment again, keeping
    /// the loaded images and atlases.
    pub fn reset(walk: Self) -> (r: Self)
        requires
            walk.wf(),
        ensures
            r.wf(),
            r.is_fresh(),
            r.boy.sprite_sheet@ == walk.boy.sprite_sheet@,
            r.backgrounds == walk.backgrounds,
            r.stone == walk.stone,
            r.obstacle_sheet@ == walk.obstacle_sheet@,
    {
        let start_obstacles = stone_and_platform(walk.stone, &walk.obstacle_sheet, 0);
        let timeline = rightmost(&start_obstacles);
        proof {
            crate::segment::lemma_max_right(start_obstacles@);
        }
        Walk {
            boy: RedHatBoy::reset(walk.boy),
            backgrounds: walk.backgrounds,
            obstacles: start_obstacles,
            obstacle_sheet: walk.obstacle_sheet,
            stone: walk.stone,
            timeline,
        }
    }

    /// What drawing the walk asks for.
    pub open spec fn spec_commands(&self) -> Seq<DrawCommand> {
        seq![self.backgrounds@[0].spec_draw(), self.backgrounds@[1].spec_draw()] + self.boy.spec_commands()
            + all_commands(self.obstacles@)
    }

    /// The backgrounds, then the character, then each obstacle.
    pub fn draw(&self) -> (r: Vec<DrawCommand>)
        requires
            self.wf(),
        ensures
            r@ == self.spec_commands(),
    {
        let mut commands: Vec<DrawCommand> = Vec::new();
        commands.push(self.backgrounds[0].draw());
        commands.push(self.backgrounds[1].draw());
        let mut boy_commands = self.boy.draw();
        commands.append(&mut boy_commands);
        let ghost head = commands@;
        let mut i: usize = 0;
        while i < self.obstacles.len()
            invariant
                i <= self.obstacles@.len(),
                self.wf(),
                commands@ == head + all_commands(self.obstacles@.take(i as int)),
            decreases self.obstacles@.len() - i,
        {
            assert(obstacle_ok(self.obstacles@[i as int]));
            let mut obstacle_commands = self.obstacles[i].draw();
            commands.append(&mut obstacle_commands);
            assert(self.obstacles@.take(i + 1).drop_last() =~= self.obstacles@.take(i as int));
            i = i + 1;
            assert(commands@ =~= head + all_commands(self.obstacles@.take(i as int)));
        }
        assert(self.obstacles@.take(i as int) =~= self.obstacles@);
        commands
    }
}

/// What drawing each obstacle in turn asks for.
pub open spec fn all_commands(s: Seq<Obstacle>) -> Seq<DrawCommand>
    decreases s.len(),
{
    if s.len() == 0 {
        Seq::empty()
    } else {
        all_commands(s.drop_last()) + s.last().commands()
    }
}

/// Relies on rand's `thread_rng` and `Rng::gen_range`: a draw from `0..2`
/// is 0 or 1.
#[verifier::external_body]
fn random_segment() -> (r: u8)
    ensures
        r < 2,
{
    rand::thread_rng().gen_range(0..2)
}

} // verus!
