//! Integer points and axis-aligned rectangles.
use vstd::prelude::*;

verus! {

/// A position or a velocity in screen coordinates (y grows downwards).
#[derive(Clone, Copy, Debug, PartialEq, Eq, Structural)]
pub struct Point {
    pub x: i16,
    pub y: i16,
}

impl Default for Point {
    fn default() -> (r: Point)
        ensures
            r.x == 0 && r.y == 0,
    {
        Point { x: 0, y: 0 }
    }
}

/// An axis-aligned rectangle given by its top-left corner and its size.
#[derive(Clone, Copy, Debug, PartialEq, Eq, Structural)]
pub struct Rect {
    pub position: Point,
    pub width: i16,
    pub height: i16,
}

impl Rect {
    pub open spec fn left(&self) -> int {
        self.position.x as int
    }

    pub open spec fn top(&self) -> int {
        self.position.y as int
    }

    pub open spec fn right_edge(&self) -> int {
        self.position.x + self.width
    }

    pub open spec fn bottom_edge(&self) -> int {
        self.position.y + self.height
    }

    /// The right and bottom edges are representable coordinates.
    pub open spec fn fits(&self) -> bool {
        &&& i16::MIN <= self.right_edge() <= i16::MAX
        &&& i16::MIN <= self.bottom_edge() <= i16::MAX
    }

    /// The two rectangles share interior area.
    pub open spec fn overlaps(&self, other: &Rect) -> bool {
        &&& self.left() < other.right_edge()
        &&& self.right_edge() > other.left()
        &&& self.top() < other.bottom_edge()
        &&& self.bottom_edge() > other.top()
    }

    pub open spec fn new_spec(x: i16, y: i16, width: i16, height: i16) -> Rect {
        Rect { position: Point { x, y }, width, height }
    }

    pub fn new(position: Point, width: i16, height: i16) -> (r: Rect)
        ensures
            r.position == position,
            r.width == width,
            r.height == height,
    {
        Rect { position, width, height }
    }

    pub fn new_from_x_y(x: i16, y: i16, width: i16, height: i16) -> (r: Rect)
        ensures
            r == Rect::new_spec(x, y, width, height),
    {
        Rect { position: Point { x, y }, width, height }
    }

    pub fn x(&self) -> (r: i16)
        ensures
            r == self.position.x,
    {
        self.position.x
    }

    pub fn y(&self) -> (r: i16)
        ensures
            r == self.position.y,
    {
        self.position.y
    }

    pub fn right(&self) -> (r: i16)
        requires
            i16::MIN <= self.right_edge() <= i16::MAX,
        ensures
            r == self.right_edge(),
    {
        self.position.x + self.width
    }

    pub fn bottom(&self) -> (r: i16)
        requires
            i16::MIN <= self.bottom_edge() <= i16::MAX,
        ensures
            r == self.bottom_edge(),
    {
        self.position.y + self.height
    }

    pub fn set_x(&mut self, x: i16)
        ensures
            final(self).position.x == x,
            final(self).position.y == old(self).position.y,
            final(self).width == old(self).width,
            final(self).height == old(self).height,
    {
        self.position.x = x;
    }

    /// Whether the two rectangles overlap.
    pub fn intersects(&self, rect: &Rect) -> (r: bool)
        requires
            self.fits(),
            rect.fits(),
        ensures
            r == self.overlaps(rect),
    {
        self.x() < rect.right() && self.right() > rect.x() && self.y() < rect.bottom()
            && self.bottom() > rect.y()
    }
}

} // verus!
