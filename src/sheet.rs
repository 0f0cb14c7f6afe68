//! Sprite atlases: named cells, each a source rectangle in the atlas image
//! and the trim offset of the sprite within its frame.
use vstd::prelude::*;

verus! {

/// Largest coordinate or size a cell of an atlas may hold.
pub const MAX_EXTENT: i16 = 2048;

/// A rectangle within an atlas.
#[derive(Clone, Copy, Debug, PartialEq, Eq, Structural)]
pub struct SheetRect {
    pub x: i16,
    pub y: i16,
    pub w: i16,
    pub h: i16,
}

impl SheetRect {
    pub open spec fn in_bounds(&self) -> bool {
        &&& 0 <= self.x <= MAX_EXTENT
        &&& 0 <= self.y <= MAX_EXTENT
        &&& 0 <= self.w <= MAX_EXTENT
        &&& 0 <= self.h <= MAX_EXTENT
    }

    pub fn is_in_bounds(&self) -> (r: bool)
        ensures
            r == self.in_bounds(),
    {
        0 <= self.x && self.x <= MAX_EXTENT && 0 <= self.y && self.y <= MAX_EXTENT && 0 <= self.w
            && self.w <= MAX_EXTENT && 0 <= self.h && self.h <= MAX_EXTENT
    }
}

/// One sprite of an atlas: where it lies in the image (`frame`) and where its
/// trimmed pixels sit within the untrimmed sprite (`sprite_source_size`).
#[derive(Clone, Copy, Debug, PartialEq, Eq, Structural)]
pub struct Cell {
    pub frame: SheetRect,
    pub sprite_source_size: SheetRect,
}

impl Cell {
    pub open spec fn in_bounds(&self) -> bool {
        self.frame.in_bounds() && self.sprite_source_size.in_bounds()
    }

    pub fn is_in_bounds(&self) -> (r: bool)
        ensures
            r == self.in_bounds(),
    {
        self.frame.is_in_bounds() && self.sprite_source_size.is_in_bounds()
    }
}

/// The map that a list of named cells describes: a later entry of a name
/// replaces an earlier one.
pub open spec fn entries_map(entries: Seq<(String, Cell)>) -> Map<Seq<char>, Cell>
    decreases entries.len(),
{
    if entries.len() == 0 {
        Map::empty()
    } else {
        entries_map(entries.drop_last()).insert(entries.last().0@, entries.last().1)
    }
}

/// An atlas: a mapping from sprite names to cells.
pub struct Sheet {
    frames: Vec<(String, Cell)>,
}

impl View for Sheet {
    type V = Map<Seq<char>, Cell>;

    closed spec fn view(&self) -> Map<Seq<char>, Cell> {
        entries_map(self.frames@)
    }
}

impl Sheet {
    pub fn new() -> (r: Sheet)
        ensures
            r@ == Map::<Seq<char>, Cell>::empty(),
    {
        Sheet { frames: Vec::new() }
    }

    /// Name `cell` as `name`, replacing any cell of that name.
    pub fn insert(&mut self, name: String, cell: Cell)
        ensures
            final(self)@ == old(self)@.insert(name@, cell),
    {
        let ghost before = self.frames@;
        self.frames.push((name, cell));
        assert(self.frames@.drop_last() =~= before);
    }

    /// The cell named `name`, if any.
    pub fn cell(&self, name: &String) -> (r: Option<Cell>)
        ensures
            r == (if self@.contains_key(name@) {
                Some(self@[name@])
            } else {
                None
            }),
    {
        let mut i = self.frames.len();
        assert(self.frames@.take(i as int) =~= self.frames@);
        while i > 0
            invariant
                i <= self.frames@.len(),
                self@.contains_key(name@) == entries_map(self.frames@.take(i as int)).contains_key(name@),
                self@.contains_key(name@) ==> self@[name@] == entries_map(self.frames@.take(i as int))[name@],
            decreases i,
        {
            assert(self.frames@.take(i as int).drop_last() =~= self.frames@.take(i - 1));
            if self.frames[i - 1].0 == *name {
                return Some(self.frames[i - 1].1);
            }
            i = i - 1;
        }
        assert(self.frames@.take(0) =~= Seq::<(String, Cell)>::empty());
        None
    }
}

} // verus!
