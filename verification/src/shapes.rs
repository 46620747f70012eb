//! Circle and rectangle primitives over exact scalars.

use vstd::prelude::*;

use crate::geom::{Point, PointV, pv_wf};
use crate::scalar::{Rat, RatV, rv_le, rv_max, rv_min, rv_wf};

verus! {

/// Mathematical view of a circle: a center and a radius.
pub ghost struct CircleV {
    pub center: PointV,
    pub radius: RatV,
}

pub open spec fn cv_wf(c: CircleV) -> bool {
    pv_wf(c.center) && rv_wf(c.radius)
}

/// Mathematical view of a rectangle: its two extreme corners.
pub ghost struct RectV {
    pub x0: RatV,
    pub y0: RatV,
    pub x1: RatV,
    pub y1: RatV,
}

/// The fractions are well formed and the corners are ordered.
pub open spec fn rect_wf(r: RectV) -> bool {
    rv_wf(r.x0) && rv_wf(r.y0) && rv_wf(r.x1) && rv_wf(r.y1) && rv_le(r.x0, r.x1) && rv_le(
        r.y0,
        r.y1,
    )
}

/// The fractions are well formed; the corners need not be ordered.
pub open spec fn rect_rats_wf(r: RectV) -> bool {
    rv_wf(r.x0) && rv_wf(r.y0) && rv_wf(r.x1) && rv_wf(r.y1)
}

/// The normalized rectangle spanned by two corner points.
pub open spec fn rect_from_points_v(p0: PointV, p1: PointV) -> RectV {
    RectV {
        x0: rv_min(p0.x, p1.x),
        y0: rv_min(p0.y, p1.y),
        x1: rv_max(p0.x, p1.x),
        y1: rv_max(p0.y, p1.y),
    }
}

pub open spec fn rect_corner0(r: RectV) -> PointV {
    PointV { x: r.x0, y: r.y0 }
}

pub open spec fn rect_corner1(r: RectV) -> PointV {
    PointV { x: r.x1, y: r.y1 }
}

/// A circle given by center and radius.
#[derive(Clone, Copy)]
pub struct Circle {
    pub center: Point,
    pub radius: Rat,
}

impl View for Circle {
    type V = CircleV;

    open spec fn view(&self) -> CircleV {
        CircleV { center: self.center@, radius: self.radius@ }
    }
}

impl Circle {
    pub open spec fn wf(self) -> bool {
        cv_wf(self@)
    }

    pub fn new(center: Point, radius: Rat) -> (r: Circle)
        ensures
            r@ == (CircleV { center: center@, radius: radius@ }),
    {
        Circle { center, radius }
    }
}

/// An axis-aligned rectangle given by two opposite corners.
#[derive(Clone, Copy)]
pub struct Rect {
    pub x0: Rat,
    pub y0: Rat,
    pub x1: Rat,
    pub y1: Rat,
}

impl View for Rect {
    type V = RectV;

    open spec fn view(&self) -> RectV {
        RectV { x0: self.x0@, y0: self.y0@, x1: self.x1@, y1: self.y1@ }
    }
}

impl Rect {
    pub open spec fn wf(self) -> bool {
        rect_wf(self@)
    }

    pub fn new(x0: Rat, y0: Rat, x1: Rat, y1: Rat) -> (r: Rect)
        ensures
            r@ == (RectV { x0: x0@, y0: y0@, x1: x1@, y1: y1@ }),
    {
        Rect { x0, y0, x1, y1 }
    }

    /// The normalized rectangle spanned by two corner points, in any order.
    pub fn from_points(p0: Point, p1: Point) -> (r: Rect)
        ensures
            r@ == rect_from_points_v(p0@, p1@),
            p0.wf() && p1.wf() ==> r.wf(),
    {
        Rect {
            x0: p0.x.min_of(p1.x),
            y0: p0.y.min_of(p1.y),
            x1: p0.x.max_of(p1.x),
            y1: p0.y.max_of(p1.y),
        }
    }
}

} // verus!
