//! A transformation that includes both a uniform scale and a translation.
//!
//! If the translation is `(x, y)` and the scale is `s`, the transformation
//! represents the augmented matrix
//!
//! ```text
//! | s 0 x |
//! | 0 s y |
//! | 0 0 1 |
//! ```
//!
//! All operations are defined to be consistent with matrix multiplication,
//! so the transform acts on a point but not the other way around, and
//! composition is not commutative. The scalar products on the two sides
//! differ on purpose: scaling on the left also scales the translation,
//! scaling on the right leaves it untouched.

use vstd::prelude::*;

use crate::affine::{Affine, AffineV};
use crate::geom::{
    Point, PointV, Vec2, Vec2V, vv_add, vv_add_fits, vv_sub, vv_sub_fits, vv_times,
    vv_times_fits, vv_wf, vv_zero,
};
use crate::scalar::{
    Rat, RatV, add_fits, mul_fits, rv_add, rv_mul, rv_neg, rv_one, rv_recip, rv_wf, rv_zero,
};
use crate::shapes::{
    Circle, CircleV, Rect, rect_corner0, rect_corner1, rect_from_points_v, rect_rats_wf,
};

verus! {

/// Mathematical view of the transform: a translation and a uniform scale.
pub ghost struct TsV {
    pub translation: Vec2V,
    pub scale: RatV,
}

pub open spec fn tsv_wf(t: TsV) -> bool {
    vv_wf(t.translation) && rv_wf(t.scale)
}

/// The identity: zero translation and unit scale.
pub open spec fn tsv_identity() -> TsV {
    TsV { translation: vv_zero(), scale: rv_one() }
}

pub open spec fn tsv_scale_only(s: RatV) -> TsV {
    TsV { translation: vv_zero(), scale: s }
}

pub open spec fn tsv_translate_only(v: Vec2V) -> TsV {
    TsV { translation: v, scale: rv_one() }
}

/// The action on a point: scale first, then translate.
pub open spec fn tsv_apply(t: TsV, p: PointV) -> PointV {
    PointV {
        x: rv_add(rv_mul(t.scale, p.x), t.translation.x),
        y: rv_add(rv_mul(t.scale, p.y), t.translation.y),
    }
}

/// Matrix-style composition: the result applies `b` first, then `a`.
pub open spec fn tsv_compose(a: TsV, b: TsV) -> TsV {
    TsV {
        translation: vv_add(a.translation, vv_times(b.translation, a.scale)),
        scale: rv_mul(a.scale, b.scale),
    }
}

/// The inverse: reciprocal scale, translation scaled by its negation.
pub open spec fn tsv_inverse(t: TsV) -> TsV {
    TsV {
        translation: vv_times(t.translation, rv_neg(rv_recip(t.scale))),
        scale: rv_recip(t.scale),
    }
}

/// A scalar composed on the left: the translation is scaled as well.
pub open spec fn tsv_scale_left(t: TsV, k: RatV) -> TsV {
    TsV { translation: vv_times(t.translation, k), scale: rv_mul(t.scale, k) }
}

/// A scalar composed on the right: the translation is untouched.
pub open spec fn tsv_scale_right(t: TsV, k: RatV) -> TsV {
    TsV { translation: t.translation, scale: rv_mul(t.scale, k) }
}

pub open spec fn tsv_translate_by(t: TsV, v: Vec2V) -> TsV {
    TsV { translation: vv_add(t.translation, v), scale: t.scale }
}

pub open spec fn tsv_translate_by_negated(t: TsV, v: Vec2V) -> TsV {
    TsV { translation: vv_sub(t.translation, v), scale: t.scale }
}

/// The equivalent general affine matrix `[s, 0, 0, s, x, y]`.
pub open spec fn tsv_to_affine(t: TsV) -> AffineV {
    AffineV {
        c0: t.scale,
        c1: rv_zero(),
        c2: rv_zero(),
        c3: t.scale,
        c4: t.translation.x,
        c5: t.translation.y,
    }
}

/// Every intermediate fraction of the action on a point stays in machine
/// range.
pub open spec fn tsv_apply_fits(t: TsV, p: PointV) -> bool {
    &&& mul_fits(t.scale, p.x)
    &&& mul_fits(t.scale, p.y)
    &&& add_fits(rv_mul(t.scale, p.x), t.translation.x)
    &&& add_fits(rv_mul(t.scale, p.y), t.translation.y)
}

pub open spec fn tsv_compose_fits(a: TsV, b: TsV) -> bool {
    &&& vv_times_fits(b.translation, a.scale)
    &&& vv_add_fits(a.translation, vv_times(b.translation, a.scale))
    &&& mul_fits(a.scale, b.scale)
}

pub open spec fn tsv_inverse_fits(t: TsV) -> bool {
    &&& t.scale.n > i64::MIN
    &&& vv_times_fits(t.translation, rv_neg(rv_recip(t.scale)))
}

/// A transformation combining a uniform scale and a translation.
#[derive(Clone, Copy)]
pub struct TranslateScale {
    translation: Vec2,
    scale: Rat,
}

impl View for TranslateScale {
    type V = TsV;

    closed spec fn view(&self) -> TsV {
        TsV { translation: self.translation@, scale: self.scale@ }
    }
}

impl TranslateScale {
    pub open spec fn wf(self) -> bool {
        tsv_wf(self@)
    }

    /// Create a new transformation from translation and scale.
    pub fn new(translation: Vec2, scale: Rat) -> (r: TranslateScale)
        ensures
            r@ == (TsV { translation: translation@, scale: scale@ }),
    {
        TranslateScale { translation, scale }
    }

    /// Create a new transformation with scale only.
    pub fn scale(s: Rat) -> (r: TranslateScale)
        ensures
            r@ == tsv_scale_only(s@),
    {
        TranslateScale::new(Vec2::zero(), s)
    }

    /// Create a new transformation with translation only.
    pub fn translate(t: Vec2) -> (r: TranslateScale)
        ensures
            r@ == tsv_translate_only(t@),
    {
        TranslateScale::new(t, Rat::one())
    }

    /// The identity transformation.
    pub fn identity() -> (r: TranslateScale)
        ensures
            r.wf(),
            r@ == tsv_identity(),
    {
        TranslateScale::new(Vec2::zero(), Rat::one())
    }

    /// Decompose the transformation into translation and scale.
    pub fn as_tuple(self) -> (r: (Vec2, Rat))
        ensures
            r.0@ == self@.translation,
            r.1@ == self@.scale,
    {
        (self.translation, self.scale)
    }

    /// Compute the inverse transform.
    ///
    /// Composing a transform with its inverse, on either side, gives a
    /// transform that acts on every point as the identity. A zero scale has
    /// no inverse, so the caller must rule it out.
    pub fn inverse(self) -> (r: TranslateScale)
        requires
            self.wf(),
            self@.scale.n != 0,
            tsv_inverse_fits(self@),
        ensures
            r.wf(),
            r@ == tsv_inverse(self@),
    {
        let scale_recip = self.scale.recip();
        proof {
            self.scale.view_bounds();
        }
        TranslateScale { translation: self.translation.times(scale_recip.neg()), scale: scale_recip }
    }

    /// Matrix-style composition: the result applies `other` first, then
    /// `self`.
    pub fn compose(self, other: TranslateScale) -> (r: TranslateScale)
        requires
            self.wf(),
            other.wf(),
            tsv_compose_fits(self@, other@),
        ensures
            r.wf(),
            r@ == tsv_compose(self@, other@),
    {
        TranslateScale {
            translation: self.translation.plus(other.translation.times(self.scale)),
            scale: self.scale.times(other.scale),
        }
    }

    /// Replace `self` by the composition of `self` with `other`.
    pub fn compose_assign(&mut self, other: TranslateScale)
        requires
            old(self).wf(),
            other.wf(),
            tsv_compose_fits(old(self)@, other@),
        ensures
            final(self).wf(),
            final(self)@ == tsv_compose(old(self)@, other@),
    {
        *self = (*self).compose(other);
    }

    /// The action on a point: scale first, then translate.
    pub fn apply_to_point(self, p: Point) -> (r: Point)
        requires
            self.wf(),
            p.wf(),
            tsv_apply_fits(self@, p@),
        ensures
            r.wf(),
            r@ == tsv_apply(self@, p@),
    {
        let x = self.scale.times(p.x).plus(self.translation.x);
        let y = self.scale.times(p.y).plus(self.translation.y);
        Point::new(x, y)
    }

    /// The action on a circle: the center is mapped and the radius is
    /// multiplied by the scale factor, keeping its sign.
    pub fn apply_to_circle(self, c: Circle) -> (r: Circle)
        requires
            self.wf(),
            c.wf(),
            tsv_apply_fits(self@, c@.center),
            mul_fits(self@.scale, c@.radius),
        ensures
            r.wf(),
            r@ == (CircleV {
                center: tsv_apply(self@, c@.center),
                radius: rv_mul(self@.scale, c@.radius),
            }),
    {
        Circle::new(self.apply_to_point(c.center), self.scale.times(c.radius))
    }

    /// The action on a rectangle: both corners are mapped and the result is
    /// normalized, so a negative scale still yields ordered corners.
    pub fn apply_to_rect(self, other: Rect) -> (r: Rect)
        requires
            self.wf(),
            rect_rats_wf(other@),
            tsv_apply_fits(self@, rect_corner0(other@)),
            tsv_apply_fits(self@, rect_corner1(other@)),
        ensures
            r.wf(),
            r@ == rect_from_points_v(
                tsv_apply(self@, rect_corner0(other@)),
                tsv_apply(self@, rect_corner1(other@)),
            ),
    {
        let pt0 = self.apply_to_point(Point::new(other.x0, other.y0));
        let pt1 = self.apply_to_point(Point::new(other.x1, other.y1));
        Rect::from_points(pt0, pt1)
    }

    /// A scalar composed on the left: the translation is scaled as well.
    pub fn scale_by_left(self, k: Rat) -> (r: TranslateScale)
        requires
            self.wf(),
            k.wf(),
            vv_times_fits(self@.translation, k@),
            mul_fits(self@.scale, k@),
        ensures
            r.wf(),
            r@ == tsv_scale_left(self@, k@),
    {
        TranslateScale { translation: self.translation.times(k), scale: self.scale.times(k) }
    }

    /// A scalar composed on the right: the translation is untouched.
    pub fn scale_by_right(self, k: Rat) -> (r: TranslateScale)
        requires
            self.wf(),
            k.wf(),
            mul_fits(self@.scale, k@),
        ensures
            r.wf(),
            r@ == tsv_scale_right(self@, k@),
    {
        TranslateScale { translation: self.translation, scale: self.scale.times(k) }
    }

    /// Add a vector to the translation component; the scale is untouched.
    /// Adding the transform to the vector is the same operation.
    pub fn translate_by(self, v: Vec2) -> (r: TranslateScale)
        requires
            self.wf(),
            v.wf(),
            vv_add_fits(self@.translation, v@),
        ensures
            r.wf(),
            r@ == tsv_translate_by(self@, v@),
    {
        TranslateScale { translation: self.translation.plus(v), scale: self.scale }
    }

    /// Replace `self` by `self` translated by `v`.
    pub fn translate_by_assign(&mut self, v: Vec2)
        requires
            old(self).wf(),
            v.wf(),
            vv_add_fits(old(self)@.translation, v@),
        ensures
            final(self).wf(),
            final(self)@ == tsv_translate_by(old(self)@, v@),
    {
        *self = (*self).translate_by(v);
    }

    /// Subtract a vector from the translation component; the scale is
    /// untouched.
    pub fn translate_by_negated(self, v: Vec2) -> (r: TranslateScale)
        requires
            self.wf(),
            v.wf(),
            vv_sub_fits(self@.translation, v@),
        ensures
            r.wf(),
            r@ == tsv_translate_by_negated(self@, v@),
    {
        TranslateScale { translation: self.translation.minus(v), scale: self.scale }
    }

    /// Replace `self` by `self` translated by the negation of `v`.
    pub fn translate_by_negated_assign(&mut self, v: Vec2)
        requires
            old(self).wf(),
            v.wf(),
            vv_sub_fits(old(self)@.translation, v@),
        ensures
            final(self).wf(),
            final(self)@ == tsv_translate_by_negated(old(self)@, v@),
    {
        *self = (*self).translate_by_negated(v);
    }

    /// The equivalent general affine matrix `[s, 0, 0, s, x, y]`.
    pub fn to_affine(self) -> (r: Affine)
        ensures
            self.wf() ==> r.wf(),
            r@ == tsv_to_affine(self@),
    {
        Affine::new(
            self.scale,
            Rat::zero(),
            Rat::zero(),
            self.scale,
            self.translation.x,
            self.translation.y,
        )
    }
}

impl Default for TranslateScale {
    /// The default transformation is the identity.
    fn default() -> (r: TranslateScale)
        ensures
            r.wf(),
            r@ == tsv_identity(),
    {
        TranslateScale::identity()
    }
}

} // verus!
