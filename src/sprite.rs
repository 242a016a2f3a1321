//! The rectangle shared by paddles and the ball.
use vstd::prelude::*;
use crate::geometry::{Vec2, MAX_COORD};

verus! {

/// An axis-aligned rectangle: `position` is its center, `size` its full width and height.
/// `changed` tells the renderer that the rectangle moved since it was last drawn.
#[derive(Clone, Copy, Debug)]
pub struct Sprite {
    pub size: Vec2,
    pub position: Vec2,
    pub changed: bool,
}

/// Twice the lower edge of an interval centered at `c` with width `w`.
pub open spec fn lo2(c: i64, w: i64) -> int {
    2 * c - w
}

/// Twice the upper edge of an interval centered at `c` with width `w`.
pub open spec fn hi2(c: i64, w: i64) -> int {
    2 * c + w
}

/// The rectangles' interiors meet: on both axes each one's lower edge lies strictly below the
/// other's upper edge. Rectangles that only touch along an edge do not overlap.
pub open spec fn overlaps(a: Sprite, b: Sprite) -> bool {
    &&& lo2(a.position.x, a.size.x) < hi2(b.position.x, b.size.x)
    &&& hi2(a.position.x, a.size.x) > lo2(b.position.x, b.size.x)
    &&& lo2(a.position.y, a.size.y) < hi2(b.position.y, b.size.y)
    &&& hi2(a.position.y, a.size.y) > lo2(b.position.y, b.size.y)
}

/// The overlap test does not depend on the order of its arguments.
pub proof fn lemma_overlaps_symmetric(a: Sprite, b: Sprite)
    ensures
        overlaps(a, b) == overlaps(b, a),
{
}

/// Rectangles that only touch, an edge of one lying on the facing edge of the other, do not
/// overlap.
pub proof fn lemma_edge_contact_is_no_overlap(a: Sprite, b: Sprite)
    requires
        hi2(a.position.x, a.size.x) == lo2(b.position.x, b.size.x)
            || hi2(b.position.x, b.size.x) == lo2(a.position.x, a.size.x)
            || hi2(a.position.y, a.size.y) == lo2(b.position.y, b.size.y)
            || hi2(b.position.y, b.size.y) == lo2(a.position.y, a.size.y),
    ensures
        !overlaps(a, b),
        !overlaps(b, a),
{
}

impl Sprite {
    /// A rectangle with a positive extent, inside the world.
    pub open spec fn wf(&self) -> bool {
        &&& self.size.x > 0
        &&& self.size.y > 0
        &&& -MAX_COORD <= self.position.x <= MAX_COORD
        &&& -MAX_COORD <= self.position.y <= MAX_COORD
    }

    pub fn new(position: Vec2, scale: Vec2) -> (r: Sprite)
        ensures
            r.position == position,
            r.size == scale,
            r.changed,
    {
        Sprite { size: scale, position, changed: true }
    }

    /// Whether this rectangle overlaps `other`.
    pub fn is_coliding(&self, other: &Sprite) -> (r: bool)
        ensures
            r == overlaps(*self, *other),
    {
        let self_min_x: i128 = 2 * (self.position.x as i128) - (self.size.x as i128);
        let self_max_x: i128 = 2 * (self.position.x as i128) + (self.size.x as i128);
        let self_min_y: i128 = 2 * (self.position.y as i128) - (self.size.y as i128);
        let self_max_y: i128 = 2 * (self.position.y as i128) + (self.size.y as i128);
        let other_min_x: i128 = 2 * (other.position.x as i128) - (other.size.x as i128);
        let other_max_x: i128 = 2 * (other.position.x as i128) + (other.size.x as i128);
        let other_min_y: i128 = 2 * (other.position.y as i128) - (other.size.y as i128);
        let other_max_y: i128 = 2 * (other.position.y as i128) + (other.size.y as i128);
        self_min_x < other_max_x && self_max_x > other_min_x && self_min_y < other_max_y
            && self_max_y > other_min_y
    }

    /// Tells the renderer that this rectangle has to be drawn anew.
    pub fn update(&mut self)
        ensures
            final(self).position == old(self).position,
            final(self).size == old(self).size,
            final(self).changed,
    {
        self.changed = true;
    }
}

} // verus!
