//! A general 2D affine transform, as six exact scalar coefficients.
//!
//! The coefficients are column-major: `c0..c3` form the linear part and
//! `c4, c5` the translation, so a point maps to
//! `(c0*x + c2*y + c4, c1*x + c3*y + c5)`.

use vstd::prelude::*;

use crate::geom::{Point, PointV};
use crate::scalar::{Rat, RatV, add_fits, mul_fits, rv_add, rv_mul, rv_wf};

verus! {

/// Mathematical view of an affine transform: six fractions.
pub ghost struct AffineV {
    pub c0: RatV,
    pub c1: RatV,
    pub c2: RatV,
    pub c3: RatV,
    pub c4: RatV,
    pub c5: RatV,
}

pub open spec fn av_wf(a: AffineV) -> bool {
    rv_wf(a.c0) && rv_wf(a.c1) && rv_wf(a.c2) && rv_wf(a.c3) && rv_wf(a.c4) && rv_wf(a.c5)
}

/// The affine action on a point.
pub open spec fn av_apply(a: AffineV, p: PointV) -> PointV {
    PointV {
        x: rv_add(rv_add(rv_mul(a.c0, p.x), rv_mul(a.c2, p.y)), a.c4),
        y: rv_add(rv_add(rv_mul(a.c1, p.x), rv_mul(a.c3, p.y)), a.c5),
    }
}

/// Every intermediate fraction of the affine action stays in machine range.
pub open spec fn av_apply_fits(a: AffineV, p: PointV) -> bool {
    &&& mul_fits(a.c0, p.x)
    &&& mul_fits(a.c2, p.y)
    &&& add_fits(rv_mul(a.c0, p.x), rv_mul(a.c2, p.y))
    &&& add_fits(rv_add(rv_mul(a.c0, p.x), rv_mul(a.c2, p.y)), a.c4)
    &&& mul_fits(a.c1, p.x)
    &&& mul_fits(a.c3, p.y)
    &&& add_fits(rv_mul(a.c1, p.x), rv_mul(a.c3, p.y))
    &&& add_fits(rv_add(rv_mul(a.c1, p.x), rv_mul(a.c3, p.y)), a.c5)
}

/// A general 2D affine transform over exact scalars.
#[derive(Clone, Copy)]
pub struct Affine {
    c0: Rat,
    c1: Rat,
    c2: Rat,
    c3: Rat,
    c4: Rat,
    c5: Rat,
}

impl View for Affine {
    type V = AffineV;

    closed spec fn view(&self) -> AffineV {
        AffineV {
            c0: self.c0@,
            c1: self.c1@,
            c2: self.c2@,
            c3: self.c3@,
            c4: self.c4@,
            c5: self.c5@,
        }
    }
}

impl Affine {
    pub open spec fn wf(self) -> bool {
        av_wf(self@)
    }

    pub fn new(c0: Rat, c1: Rat, c2: Rat, c3: Rat, c4: Rat, c5: Rat) -> (r: Affine)
        ensures
            r@ == (AffineV { c0: c0@, c1: c1@, c2: c2@, c3: c3@, c4: c4@, c5: c5@ }),
    {
        Affine { c0, c1, c2, c3, c4, c5 }
    }

    pub fn apply_to_point(self, p: Point) -> (r: Point)
        requires
            self.wf(),
            p.wf(),
            av_apply_fits(self@, p@),
        ensures
            r.wf(),
            r@ == av_apply(self@, p@),
    {
        let x = self.c0.times(p.x).plus(self.c2.times(p.y)).plus(self.c4);
        let y = self.c1.times(p.x).plus(self.c3.times(p.y)).plus(self.c5);
        Point::new(x, y)
    }
}

} // verus!
