//! The passive data holder for one rectangle's geometry and motion state,
//! together with the pure axis-aligned overlap test.

use vstd::prelude::*;
use vstd::math::abs;

verus! {

/// One axis-aligned rectangular body. The rectangle is `width` wide and
/// `height` tall and is centered at `(x, y)`; `(vx, vy)` is its displacement
/// per simulation tick. Width and height are fixed for a body's lifetime;
/// only position and velocity change after creation.
#[derive(Clone, Copy, Debug, PartialEq, Eq, Structural)]
pub struct Body {
    pub width: i64,
    pub height: i64,
    pub x: i64,
    pub y: i64,
    pub vx: i64,
    pub vy: i64,
}

/// Two bodies overlap when their rectangles share any area. Touching edges do
/// not count as overlap: the separating-axis test uses strict inequality, so
/// two bodies resting exactly flush are not in collision. Working with twice
/// the center distance avoids halving the extents.
pub open spec fn overlaps(a: Body, b: Body) -> bool {
    &&& 2 * abs(a.x - b.x) < a.width + b.width
    &&& 2 * abs(a.y - b.y) < a.height + b.height
}

impl Body {
    /// A body is well formed when its rectangle has positive extent on both
    /// axes.
    pub open spec fn wf(self) -> bool {
        self.width > 0 && self.height > 0
    }

    /// Integrating the body's motion must not leave the coordinate range.
    pub open spec fn can_integrate(self) -> bool {
        &&& i64::MIN <= self.x + self.vx <= i64::MAX
        &&& i64::MIN <= self.y + self.vy <= i64::MAX
    }

    /// The body one tick later: position advanced by the velocity, geometry
    /// and velocity unchanged.
    pub open spec fn integrated(self) -> Body {
        Body { x: (self.x + self.vx) as i64, y: (self.y + self.vy) as i64, ..self }
    }

    pub fn new(width: i64, height: i64, x: i64, y: i64, vx: i64, vy: i64) -> (body: Body)
        requires
            width > 0,
            height > 0,
        ensures
            body == (Body { width, height, x, y, vx, vy }),
            body.wf(),
    {
        Body { width, height, x, y, vx, vy }
    }

    /// The axis-aligned overlap test: true iff the two rectangles share any
    /// area, touching edges excluded. Pure; total over all bodies.
    pub fn overlaps_with(&self, other: &Body) -> (r: bool)
        ensures
            r == overlaps(*self, *other),
    {
        let dx: i128 = self.x as i128 - other.x as i128;
        let dy: i128 = self.y as i128 - other.y as i128;
        let adx: i128 = if dx < 0 { -dx } else { dx };
        let ady: i128 = if dy < 0 { -dy } else { dy };
        2 * adx < self.width as i128 + other.width as i128
            && 2 * ady < self.height as i128 + other.height as i128
    }

    /// Advance the position by the velocity, exactly. Geometry and velocity
    /// are untouched.
    pub fn integrate(&mut self)
        requires
            old(self).can_integrate(),
        ensures
            final(self).x == old(self).x + old(self).vx,
            final(self).y == old(self).y + old(self).vy,
            final(self).vx == old(self).vx,
            final(self).vy == old(self).vy,
            final(self).width == old(self).width,
            final(self).height == old(self).height,
            *final(self) == old(self).integrated(),
    {
        self.x = self.x + self.vx;
        self.y = self.y + self.vy;
    }
}

/// Overlap symmetry: the overlap test does not depend on the order of its
/// arguments.
pub proof fn lemma_overlap_symmetric(a: Body, b: Body)
    ensures
        overlaps(a, b) == overlaps(b, a),
{
}

/// Overlap reflexivity: a well-formed body always overlaps itself.
pub proof fn lemma_overlap_reflexive(a: Body)
    requires
        a.wf(),
    ensures
        overlaps(a, a),
{
}

} // verus!
