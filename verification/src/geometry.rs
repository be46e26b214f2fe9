//! Axis-aligned rectangles and points: intersection, point containment,
//! and the three-way clip classification used by the draw layer.

use vstd::prelude::*;

use crate::arith::{imax, imin, sat_add, sat_sub, sadd, ssub};

verus! {

/// A point or extent in screen space.
#[derive(Clone, Copy, PartialEq, Eq, Structural, Debug)]
pub struct Vec2 {
    pub x: i32,
    pub y: i32,
}

/// An axis-aligned rectangle: origin plus extent.
#[derive(Clone, Copy, PartialEq, Eq, Structural, Debug)]
pub struct Rect {
    pub x: i32,
    pub y: i32,
    pub w: i32,
    pub h: i32,
}

/// How a rectangle relates to the active clip rectangle: fully visible,
/// partially covered, or entirely clipped away.
#[derive(Clone, Copy, PartialEq, Eq, Structural, Debug)]
pub enum Clip {
    Unclipped,
    Part,
    All,
}

/// Builds a [`Vec2`] from its coordinates.
pub fn vec2(x: i32, y: i32) -> (r: Vec2)
    ensures
        r == (Vec2 { x, y }),
{
    Vec2 { x, y }
}

/// Builds a [`Rect`] from origin and extent.
pub fn rect(x: i32, y: i32, w: i32, h: i32) -> (r: Rect)
    ensures
        r == (Rect { x, y, w, h }),
{
    Rect { x, y, w, h }
}

impl Vec2 {
    /// The origin point.
    pub fn zero() -> (r: Vec2)
        ensures
            r == (Vec2 { x: 0, y: 0 }),
    {
        Vec2 { x: 0, y: 0 }
    }
}

/// The intersection of two rectangles: the largest rectangle contained in
/// both, with a zero extent on each axis where they do not meet.
pub open spec fn spec_intersect(a: Rect, b: Rect) -> Rect {
    let x1 = if a.x >= b.x {
        a.x as int
    } else {
        b.x as int
    };
    let y1 = if a.y >= b.y {
        a.y as int
    } else {
        b.y as int
    };
    let ax2 = sat_add(a.x as int, a.w as int);
    let bx2 = sat_add(b.x as int, b.w as int);
    let ay2 = sat_add(a.y as int, a.h as int);
    let by2 = sat_add(b.y as int, b.h as int);
    let x2 = if ax2 <= bx2 {
        ax2
    } else {
        bx2
    };
    let y2 = if ay2 <= by2 {
        ay2
    } else {
        by2
    };
    let x2 = if x2 < x1 {
        x1
    } else {
        x2
    };
    let y2 = if y2 < y1 {
        y1
    } else {
        y2
    };
    Rect {
        x: x1 as i32,
        y: y1 as i32,
        w: sat_sub(x2, x1) as i32,
        h: sat_sub(y2, y1) as i32,
    }
}

/// True when the point lies inside the rectangle (right and bottom edges
/// exclusive).
pub open spec fn spec_overlaps(r: Rect, p: Vec2) -> bool {
    &&& p.x >= r.x
    &&& (p.x as int) < sat_add(r.x as int, r.w as int)
    &&& p.y >= r.y
    &&& (p.y as int) < sat_add(r.y as int, r.h as int)
}

/// The clip classification of `inner` against the clip rectangle `outer`.
pub open spec fn spec_clip(outer: Rect, inner: Rect) -> Clip {
    if inner.x as int > sat_add(outer.x as int, outer.w as int) || sat_add(
        inner.x as int,
        inner.w as int,
    ) < outer.x as int || inner.y as int > sat_add(outer.y as int, outer.h as int) || sat_add(
        inner.y as int,
        inner.h as int,
    ) < outer.y as int {
        Clip::All
    } else if inner.x >= outer.x && sat_add(inner.x as int, inner.w as int) <= sat_add(
        outer.x as int,
        outer.w as int,
    ) && inner.y >= outer.y && sat_add(inner.y as int, inner.h as int) <= sat_add(
        outer.y as int,
        outer.h as int,
    ) {
        Clip::Unclipped
    } else {
        Clip::Part
    }
}

/// The rectangle grown by `n` on every side.
pub open spec fn spec_expand(r: Rect, n: int) -> Rect {
    Rect {
        x: sat_sub(r.x as int, n) as i32,
        y: sat_sub(r.y as int, n) as i32,
        w: sat_add(r.w as int, sat_mul_2(n)) as i32,
        h: sat_add(r.h as int, sat_mul_2(n)) as i32,
    }
}

/// `2 * n` clipped to the `i32` range.
pub open spec fn sat_mul_2(n: int) -> int {
    crate::arith::sat_mul(n, 2)
}

impl Rect {
    /// The rectangle grown by `n` on every side (shrunk, for negative `n`).
    #[must_use]
    pub fn expand(self, n: i32) -> (r: Rect)
        ensures
            r == spec_expand(self, n as int),
    {
        let two_n = crate::arith::smul(n, 2);
        Rect {
            x: ssub(self.x, n),
            y: ssub(self.y, n),
            w: sadd(self.w, two_n),
            h: sadd(self.h, two_n),
        }
    }

    /// The intersection with `rhs`.
    pub fn intersect(&self, rhs: Rect) -> (r: Rect)
        ensures
            r == spec_intersect(*self, rhs),
    {
        let x1 = imax(self.x, rhs.x);
        let y1 = imax(self.y, rhs.y);
        let mut x2 = imin(sadd(self.x, self.w), sadd(rhs.x, rhs.w));
        let mut y2 = imin(sadd(self.y, self.h), sadd(rhs.y, rhs.h));

        if x2 < x1 {
            x2 = x1;
        }
        if y2 < y1 {
            y2 = y1;
        }

        Rect { x: x1, y: y1, w: ssub(x2, x1), h: ssub(y2, y1) }
    }

    /// Classifies `rhs` against `self`, the active clip rectangle:
    /// [`Clip::All`] when `rhs` lies entirely outside, [`Clip::Unclipped`] when
    /// it lies entirely inside, [`Clip::Part`] otherwise.
    pub fn clip(&self, rhs: Rect) -> (c: Clip)
        ensures
            c == spec_clip(*self, rhs),
    {
        let sx2 = sadd(self.x, self.w);
        let sy2 = sadd(self.y, self.h);
        let rx2 = sadd(rhs.x, rhs.w);
        let ry2 = sadd(rhs.y, rhs.h);

        if rhs.x > sx2 || rx2 < self.x || rhs.y > sy2 || ry2 < self.y {
            return Clip::All;
        }
        if rhs.x >= self.x && rx2 <= sx2 && rhs.y >= self.y && ry2 <= sy2 {
            return Clip::Unclipped;
        }
        Clip::Part
    }

    /// True when `point` lies inside the rectangle.
    pub fn overlaps(&self, point: Vec2) -> (b: bool)
        ensures
            b == spec_overlaps(*self, point),
    {
        point.x >= self.x && point.x < sadd(self.x, self.w) && point.y >= self.y && point.y < sadd(
            self.y,
            self.h,
        )
    }

    /// The clip rectangle that disables clipping: it contains every
    /// rectangle the engine works with.
    pub fn unclipped() -> (r: Rect)
        ensures
            r == (Rect { x: 0, y: 0, w: 0x1000000, h: 0x1000000 }),
    {
        Rect { x: 0, y: 0, w: 0x1000000, h: 0x1000000 }
    }
}

} // verus!
