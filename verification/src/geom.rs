//! 2D vector and point primitives over exact scalars.

use vstd::prelude::*;

use crate::scalar::{
    Rat, RatV, add_fits, mul_fits, rv_add, rv_eq, rv_mul, rv_neg, rv_sub, rv_wf, rv_zero,
};

verus! {

/// Mathematical view of a vector: a pair of fractions.
pub ghost struct Vec2V {
    pub x: RatV,
    pub y: RatV,
}

/// Mathematical view of a point: a pair of fractions.
pub ghost struct PointV {
    pub x: RatV,
    pub y: RatV,
}

pub open spec fn vv_wf(v: Vec2V) -> bool {
    rv_wf(v.x) && rv_wf(v.y)
}

pub open spec fn pv_wf(p: PointV) -> bool {
    rv_wf(p.x) && rv_wf(p.y)
}

/// Two vectors denote the same pair of rational numbers.
pub open spec fn vv_eq(a: Vec2V, b: Vec2V) -> bool {
    rv_eq(a.x, b.x) && rv_eq(a.y, b.y)
}

/// Two points denote the same pair of rational numbers.
pub open spec fn pv_eq(a: PointV, b: PointV) -> bool {
    rv_eq(a.x, b.x) && rv_eq(a.y, b.y)
}

pub open spec fn vv_zero() -> Vec2V {
    Vec2V { x: rv_zero(), y: rv_zero() }
}

pub open spec fn vv_add(a: Vec2V, b: Vec2V) -> Vec2V {
    Vec2V { x: rv_add(a.x, b.x), y: rv_add(a.y, b.y) }
}

pub open spec fn vv_sub(a: Vec2V, b: Vec2V) -> Vec2V {
    Vec2V { x: rv_sub(a.x, b.x), y: rv_sub(a.y, b.y) }
}

pub open spec fn vv_neg(v: Vec2V) -> Vec2V {
    Vec2V { x: rv_neg(v.x), y: rv_neg(v.y) }
}

/// A vector scaled by a scalar, component by component.
pub open spec fn vv_times(v: Vec2V, k: RatV) -> Vec2V {
    Vec2V { x: rv_mul(v.x, k), y: rv_mul(v.y, k) }
}

pub open spec fn vv_to_point(v: Vec2V) -> PointV {
    PointV { x: v.x, y: v.y }
}

pub open spec fn pv_to_vec(p: PointV) -> Vec2V {
    Vec2V { x: p.x, y: p.y }
}

/// A point moved by a vector.
pub open spec fn pv_plus(p: PointV, v: Vec2V) -> PointV {
    PointV { x: rv_add(p.x, v.x), y: rv_add(p.y, v.y) }
}

pub open spec fn vv_add_fits(a: Vec2V, b: Vec2V) -> bool {
    add_fits(a.x, b.x) && add_fits(a.y, b.y)
}

pub open spec fn vv_sub_fits(a: Vec2V, b: Vec2V) -> bool {
    b.x.n > i64::MIN && b.y.n > i64::MIN && add_fits(a.x, rv_neg(b.x)) && add_fits(a.y, rv_neg(b.y))
}

pub open spec fn vv_times_fits(v: Vec2V, k: RatV) -> bool {
    mul_fits(v.x, k) && mul_fits(v.y, k)
}

pub open spec fn pv_plus_fits(p: PointV, v: Vec2V) -> bool {
    add_fits(p.x, v.x) && add_fits(p.y, v.y)
}

/// A 2D vector with exact rational components.
#[derive(Clone, Copy)]
pub struct Vec2 {
    pub x: Rat,
    pub y: Rat,
}

/// A 2D point with exact rational components.
#[derive(Clone, Copy)]
pub struct Point {
    pub x: Rat,
    pub y: Rat,
}

impl View for Vec2 {
    type V = Vec2V;

    open spec fn view(&self) -> Vec2V {
        Vec2V { x: self.x@, y: self.y@ }
    }
}

impl View for Point {
    type V = PointV;

    open spec fn view(&self) -> PointV {
        PointV { x: self.x@, y: self.y@ }
    }
}

impl Vec2 {
    pub open spec fn wf(self) -> bool {
        vv_wf(self@)
    }

    pub fn new(x: Rat, y: Rat) -> (r: Vec2)
        ensures
            r@ == (Vec2V { x: x@, y: y@ }),
    {
        Vec2 { x, y }
    }

    pub fn zero() -> (r: Vec2)
        ensures
            r.wf(),
            r@ == vv_zero(),
    {
        Vec2 { x: Rat::zero(), y: Rat::zero() }
    }

    pub fn plus(self, other: Vec2) -> (r: Vec2)
        requires
            self.wf(),
            other.wf(),
            vv_add_fits(self@, other@),
        ensures
            r.wf(),
            r@ == vv_add(self@, other@),
    {
        Vec2 { x: self.x.plus(other.x), y: self.y.plus(other.y) }
    }

    pub fn minus(self, other: Vec2) -> (r: Vec2)
        requires
            self.wf(),
            other.wf(),
            vv_sub_fits(self@, other@),
        ensures
            r.wf(),
            r@ == vv_sub(self@, other@),
    {
        Vec2 { x: self.x.minus(other.x), y: self.y.minus(other.y) }
    }

    pub fn neg(self) -> (r: Vec2)
        requires
            self@.x.n > i64::MIN,
            self@.y.n > i64::MIN,
        ensures
            r@ == vv_neg(self@),
    {
        Vec2 { x: self.x.neg(), y: self.y.neg() }
    }

    pub fn times(self, k: Rat) -> (r: Vec2)
        requires
            self.wf(),
            k.wf(),
            vv_times_fits(self@, k@),
        ensures
            r.wf(),
            r@ == vv_times(self@, k@),
    {
        Vec2 { x: self.x.times(k), y: self.y.times(k) }
    }

    pub fn to_point(self) -> (r: Point)
        ensures
            r@ == vv_to_point(self@),
    {
        Point { x: self.x, y: self.y }
    }

    /// Exact equality of the denoted rational pairs.
    pub fn eqv(self, other: Vec2) -> (r: bool)
        ensures
            r == vv_eq(self@, other@),
    {
        self.x.eqv(other.x) && self.y.eqv(other.y)
    }
}

impl Point {
    pub open spec fn wf(self) -> bool {
        pv_wf(self@)
    }

    pub fn new(x: Rat, y: Rat) -> (r: Point)
        ensures
            r@ == (PointV { x: x@, y: y@ }),
    {
        Point { x, y }
    }

    pub fn to_vec2(self) -> (r: Vec2)
        ensures
            r@ == pv_to_vec(self@),
    {
        Vec2 { x: self.x, y: self.y }
    }

    pub fn plus(self, v: Vec2) -> (r: Point)
        requires
            self.wf(),
            v.wf(),
            pv_plus_fits(self@, v@),
        ensures
            r.wf(),
            r@ == pv_plus(self@, v@),
    {
        Point { x: self.x.plus(v.x), y: self.y.plus(v.y) }
    }

    /// Exact equality of the denoted rational pairs.
    pub fn eqv(self, other: Point) -> (r: bool)
        ensures
            r == pv_eq(self@, other@),
    {
        self.x.eqv(other.x) && self.y.eqv(other.y)
    }
}

} // verus!
