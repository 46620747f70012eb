//! The algebraic laws of the transform, each stated and proved over the
//! mathematical views that the executable contracts use.

use vstd::prelude::*;

use crate::affine::av_apply;
use crate::geom::{PointV, Vec2V, pv_eq, pv_plus, pv_to_vec, pv_wf, vv_eq, vv_times, vv_to_point,
    vv_wf, vv_zero};
use crate::scalar::{RatV, rv_add, rv_eq, rv_mul, rv_one, rv_recip, rv_wf, rv_zero};
use crate::translate_scale::{
    TsV, tsv_apply, tsv_compose, tsv_identity, tsv_inverse, tsv_scale_left, tsv_scale_only,
    tsv_scale_right, tsv_to_affine, tsv_translate_only, tsv_wf,
};

verus! {

/// Two fractions whose components differ by one common integer factor
/// denote the same rational number.
pub proof fn lemma_common_factor_eqv(x: RatV, y: RatV, k: int)
    requires
        x.n == k * y.n,
        x.d == k * y.d,
    ensures
        rv_eq(x, y),
{
    assert(x.n * y.d == y.n * x.d) by (nonlinear_arith)
        requires
            x.n == k * y.n,
            x.d == k * y.d;
}

/// A scale whose numerator and denominator agree denotes one, and adding a
/// fraction with a zero numerator changes nothing: such an action fixes
/// every fraction.
pub proof fn lemma_scale_one_apply(q: RatV, c: RatV, p: RatV)
    requires
        c.n == 0,
        q.n == q.d,
    ensures
        rv_eq(rv_add(rv_mul(q, p), c), p),
{
    let w: RatV = rv_add(rv_mul(q, p), c);
    assert(w.n == (q.n * p.n) * c.d + c.n * (q.d * p.d));
    assert(w.d == (q.d * p.d) * c.d);
    assert(w.n * p.d == p.n * w.d) by (nonlinear_arith)
        requires
            w.n == (q.n * p.n) * c.d + c.n * (q.d * p.d),
            w.d == (q.d * p.d) * c.d,
            c.n == 0,
            q.n == q.d;
}

/// Conversion consistency: the derived general affine matrix acts on every
/// point exactly as the transform itself does.
pub proof fn lemma_to_affine_consistent(t: TsV, p: PointV)
    requires
        tsv_wf(t),
        pv_wf(p),
    ensures
        pv_eq(av_apply(tsv_to_affine(t), p), tsv_apply(t, p)),
{
    let q1: PointV = av_apply(tsv_to_affine(t), p);
    let q2: PointV = tsv_apply(t, p);
    let sn: int = t.scale.n;
    let sd: int = t.scale.d;
    let uxn: int = t.translation.x.n;
    let uxd: int = t.translation.x.d;
    let uyn: int = t.translation.y.n;
    let uyd: int = t.translation.y.d;
    let pxn: int = p.x.n;
    let pxd: int = p.x.d;
    let pyn: int = p.y.n;
    let pyd: int = p.y.d;

    assert(q1.x.n == ((sn * pxn) * (1 * pyd) + (0 * pyn) * (sd * pxd)) * uxd + uxn * ((sd * pxd)
        * (1 * pyd)));
    assert(q1.x.d == ((sd * pxd) * (1 * pyd)) * uxd);
    assert(q2.x.n == (sn * pxn) * uxd + uxn * (sd * pxd));
    assert(q2.x.d == (sd * pxd) * uxd);
    assert(q1.x.n == pyd * q2.x.n && q1.x.d == pyd * q2.x.d) by (nonlinear_arith)
        requires
            q1.x.n == ((sn * pxn) * (1 * pyd) + (0 * pyn) * (sd * pxd)) * uxd + uxn * ((sd * pxd)
                * (1 * pyd)),
            q1.x.d == ((sd * pxd) * (1 * pyd)) * uxd,
            q2.x.n == (sn * pxn) * uxd + uxn * (sd * pxd),
            q2.x.d == (sd * pxd) * uxd;
    lemma_common_factor_eqv(q1.x, q2.x, pyd);

    assert(q1.y.n == ((0 * pxn) * (sd * pyd) + (sn * pyn) * (1 * pxd)) * uyd + uyn * ((1 * pxd)
        * (sd * pyd)));
    assert(q1.y.d == ((1 * pxd) * (sd * pyd)) * uyd);
    assert(q2.y.n == (sn * pyn) * uyd + uyn * (sd * pyd));
    assert(q2.y.d == (sd * pyd) * uyd);
    assert(q1.y.n == pxd * q2.y.n && q1.y.d == pxd * q2.y.d) by (nonlinear_arith)
        requires
            q1.y.n == ((0 * pxn) * (sd * pyd) + (sn * pyn) * (1 * pxd)) * uyd + uyn * ((1 * pxd)
                * (sd * pyd)),
            q1.y.d == ((1 * pxd) * (sd * pyd)) * uyd,
            q2.y.n == (sn * pyn) * uyd + uyn * (sd * pyd),
            q2.y.d == (sd * pyd) * uyd;
    lemma_common_factor_eqv(q1.y, q2.y, pxd);
}

/// Construction shorthand: a scale-only transform acts on a point as
/// scaling its vector form and converting back.
pub proof fn lemma_scale_only_action(s: RatV, p: PointV)
    requires
        rv_wf(s),
        pv_wf(p),
    ensures
        pv_eq(tsv_apply(tsv_scale_only(s), p), vv_to_point(vv_times(pv_to_vec(p), s))),
{
    let q1: PointV = tsv_apply(tsv_scale_only(s), p);
    let q2: PointV = vv_to_point(vv_times(pv_to_vec(p), s));
    let sn: int = s.n;
    let sd: int = s.d;
    let pxn: int = p.x.n;
    let pxd: int = p.x.d;
    let pyn: int = p.y.n;
    let pyd: int = p.y.d;

    assert(q1.x.n == (sn * pxn) * 1 + 0 * (sd * pxd));
    assert(q1.x.d == (sd * pxd) * 1);
    assert(q2.x.n == pxn * sn && q2.x.d == pxd * sd);
    assert(q1.x.n * q2.x.d == q2.x.n * q1.x.d) by (nonlinear_arith)
        requires
            q1.x.n == (sn * pxn) * 1 + 0 * (sd * pxd),
            q1.x.d == (sd * pxd) * 1,
            q2.x.n == pxn * sn,
            q2.x.d == pxd * sd;

    assert(q1.y.n == (sn * pyn) * 1 + 0 * (sd * pyd));
    assert(q1.y.d == (sd * pyd) * 1);
    assert(q2.y.n == pyn * sn && q2.y.d == pyd * sd);
    assert(q1.y.n * q2.y.d == q2.y.n * q1.y.d) by (nonlinear_arith)
        requires
            q1.y.n == (sn * pyn) * 1 + 0 * (sd * pyd),
            q1.y.d == (sd * pyd) * 1,
            q2.y.n == pyn * sn,
            q2.y.d == pyd * sd;
}

/// Construction shorthand: a translate-only transform acts on a point as
/// adding the vector to it.
pub proof fn lemma_translate_only_action(v: Vec2V, p: PointV)
    requires
        vv_wf(v),
        pv_wf(p),
    ensures
        pv_eq(tsv_apply(tsv_translate_only(v), p), pv_plus(p, v)),
{
    let q1: PointV = tsv_apply(tsv_translate_only(v), p);
    let q2: PointV = pv_plus(p, v);
    let vxn: int = v.x.n;
    let vxd: int = v.x.d;
    let vyn: int = v.y.n;
    let vyd: int = v.y.d;
    let pxn: int = p.x.n;
    let pxd: int = p.x.d;
    let pyn: int = p.y.n;
    let pyd: int = p.y.d;

    assert(q1.x.n == (1 * pxn) * vxd + vxn * (1 * pxd));
    assert(q1.x.d == (1 * pxd) * vxd);
    assert(q2.x.n == pxn * vxd + vxn * pxd);
    assert(q2.x.d == pxd * vxd);
    assert(q1.x.n * q2.x.d == q2.x.n * q1.x.d) by (nonlinear_arith)
        requires
            q1.x.n == (1 * pxn) * vxd + vxn * (1 * pxd),
            q1.x.d == (1 * pxd) * vxd,
            q2.x.n == pxn * vxd + vxn * pxd,
            q2.x.d == pxd * vxd;

    assert(q1.y.n == (1 * pyn) * vyd + vyn * (1 * pyd));
    assert(q1.y.d == (1 * pyd) * vyd);
    assert(q2.y.n == pyn * vyd + vyn * pyd);
    assert(q2.y.d == pyd * vyd);
    assert(q1.y.n * q2.y.d == q2.y.n * q1.y.d) by (nonlinear_arith)
        requires
            q1.y.n == (1 * pyn) * vyd + vyn * (1 * pyd),
            q1.y.d == (1 * pyd) * vyd,
            q2.y.n == pyn * vyd + vyn * pyd,
            q2.y.d == pyd * vyd;
}

/// Inverse round trip: a transform with non-zero scale composed with its
/// inverse, on either side, acts on every point as the identity.
pub proof fn lemma_inverse_round_trip(t: TsV, p: PointV)
    requires
        tsv_wf(t),
        pv_wf(p),
        t.scale.n != 0,
    ensures
        pv_eq(tsv_apply(tsv_compose(t, tsv_inverse(t)), p), p),
        pv_eq(tsv_apply(tsv_compose(tsv_inverse(t), t), p), p),
{
    let s: RatV = t.scale;
    let r: RatV = rv_recip(s);
    let sn: int = s.n;
    let sd: int = s.d;
    let rn: int = r.n;
    let rd: int = r.d;
    assert(rn * sn == sd * rd) by (nonlinear_arith)
        requires
            (sn >= 0 && rn == sd && rd == sn) || (sn < 0 && rn == -sd && rd == -sn);

    let uxn: int = t.translation.x.n;
    let uxd: int = t.translation.x.d;
    let uyn: int = t.translation.y.n;
    let uyd: int = t.translation.y.d;

    let c1: TsV = tsv_compose(t, tsv_inverse(t));
    assert(c1.translation.x.n == uxn * ((uxd * rd) * sd) + ((uxn * (-rn)) * sn) * uxd);
    assert(c1.translation.x.n == 0) by (nonlinear_arith)
        requires
            c1.translation.x.n == uxn * ((uxd * rd) * sd) + ((uxn * (-rn)) * sn) * uxd,
            rn * sn == sd * rd;
    assert(c1.translation.y.n == uyn * ((uyd * rd) * sd) + ((uyn * (-rn)) * sn) * uyd);
    assert(c1.translation.y.n == 0) by (nonlinear_arith)
        requires
            c1.translation.y.n == uyn * ((uyd * rd) * sd) + ((uyn * (-rn)) * sn) * uyd,
            rn * sn == sd * rd;
    assert(c1.scale.n == c1.scale.d) by (nonlinear_arith)
        requires
            c1.scale.n == sn * rn,
            c1.scale.d == sd * rd,
            rn * sn == sd * rd;
    lemma_scale_one_apply(c1.scale, c1.translation.x, p.x);
    lemma_scale_one_apply(c1.scale, c1.translation.y, p.y);

    let c2: TsV = tsv_compose(tsv_inverse(t), t);
    assert(c2.translation.x.n == (uxn * (-rn)) * (uxd * rd) + (uxn * rn) * ((uxd * rd)));
    assert(c2.translation.x.n == 0) by (nonlinear_arith)
        requires
            c2.translation.x.n == (uxn * (-rn)) * (uxd * rd) + (uxn * rn) * ((uxd * rd));
    assert(c2.translation.y.n == (uyn * (-rn)) * (uyd * rd) + (uyn * rn) * ((uyd * rd)));
    assert(c2.translation.y.n == 0) by (nonlinear_arith)
        requires
            c2.translation.y.n == (uyn * (-rn)) * (uyd * rd) + (uyn * rn) * ((uyd * rd));
    assert(c2.scale.n == c2.scale.d) by (nonlinear_arith)
        requires
            c2.scale.n == rn * sn,
            c2.scale.d == rd * sd,
            rn * sn == sd * rd;
    lemma_scale_one_apply(c2.scale, c2.translation.x, p.x);
    lemma_scale_one_apply(c2.scale, c2.translation.y, p.y);
}

/// One coordinate of the composition law, over the raw integer components:
/// the coordinate that the composed transform yields differs from the
/// coordinate of the two-step application by the common factor `ad`.
proof fn lemma_compose_apply_coord(
    an: int,
    ad: int,
    un: int,
    ud: int,
    bn: int,
    bd: int,
    vn: int,
    vd: int,
    pn: int,
    pd: int,
)
    ensures
        ((an * bn) * pn) * (ud * (vd * ad)) + (un * (vd * ad) + (vn * an) * ud) * ((ad * bd) * pd)
            == ad * ((an * ((bn * pn) * vd + vn * (bd * pd))) * ud + un * (ad * ((bd * pd) * vd))),
        ((ad * bd) * pd) * (ud * (vd * ad)) == ad * ((ad * ((bd * pd) * vd)) * ud),
{
    let x1: int = (an * ((bn * pn) * vd)) * ud;
    let x2: int = (an * (vn * (bd * pd))) * ud;
    let yv: int = un * (ad * ((bd * pd) * vd));
    let s1: int = (an * ((bn * pn) * vd + vn * (bd * pd))) * ud;
    assert(((an * bn) * pn) * (ud * (vd * ad)) == ad * x1) by (nonlinear_arith)
        requires
            x1 == (an * ((bn * pn) * vd)) * ud;
    let t1: int = un * (vd * ad);
    let t2: int = (vn * an) * ud;
    let cc: int = (ad * bd) * pd;
    assert((t1 + t2) * cc == t1 * cc + t2 * cc) by (nonlinear_arith);
    assert(t1 * cc == ad * yv) by (nonlinear_arith)
        requires
            t1 == un * (vd * ad),
            cc == (ad * bd) * pd,
            yv == un * (ad * ((bd * pd) * vd));
    assert(t2 * cc == ad * x2) by (nonlinear_arith)
        requires
            t2 == (vn * an) * ud,
            cc == (ad * bd) * pd,
            x2 == (an * (vn * (bd * pd))) * ud;
    assert((un * (vd * ad) + (vn * an) * ud) * ((ad * bd) * pd) == ad * x2 + ad * yv);
    assert(s1 == x1 + x2) by (nonlinear_arith)
        requires
            s1 == (an * ((bn * pn) * vd + vn * (bd * pd))) * ud,
            x1 == (an * ((bn * pn) * vd)) * ud,
            x2 == (an * (vn * (bd * pd))) * ud;
    assert(ad * (s1 + yv) == ad * s1 + ad * yv) by (nonlinear_arith);
    assert(ad * (x1 + x2) == ad * x1 + ad * x2) by (nonlinear_arith);
    assert(((ad * bd) * pd) * (ud * (vd * ad)) == ad * ((ad * ((bd * pd) * vd)) * ud))
        by (nonlinear_arith);
}

/// Composition agrees with application: applying a composition to a point
/// gives the same point as applying the transforms one after the other.
pub proof fn lemma_compose_apply(a: TsV, b: TsV, p: PointV)
    requires
        tsv_wf(a),
        tsv_wf(b),
        pv_wf(p),
    ensures
        pv_eq(tsv_apply(tsv_compose(a, b), p), tsv_apply(a, tsv_apply(b, p))),
{
    let q1: PointV = tsv_apply(tsv_compose(a, b), p);
    let q2: PointV = tsv_apply(a, tsv_apply(b, p));
    let an: int = a.scale.n;
    let ad: int = a.scale.d;
    let bn: int = b.scale.n;
    let bd: int = b.scale.d;
    let uxn: int = a.translation.x.n;
    let uxd: int = a.translation.x.d;
    let uyn: int = a.translation.y.n;
    let uyd: int = a.translation.y.d;
    let vxn: int = b.translation.x.n;
    let vxd: int = b.translation.x.d;
    let vyn: int = b.translation.y.n;
    let vyd: int = b.translation.y.d;
    let pxn: int = p.x.n;
    let pxd: int = p.x.d;
    let pyn: int = p.y.n;
    let pyd: int = p.y.d;

    assert(q1.x.n == ((an * bn) * pxn) * (uxd * (vxd * ad)) + (uxn * (vxd * ad) + (vxn * an)
        * uxd) * ((ad * bd) * pxd));
    assert(q1.x.d == ((ad * bd) * pxd) * (uxd * (vxd * ad)));
    assert(q2.x.n == (an * ((bn * pxn) * vxd + vxn * (bd * pxd))) * uxd + uxn * (ad * ((bd * pxd)
        * vxd)));
    assert(q2.x.d == (ad * ((bd * pxd) * vxd)) * uxd);
    lemma_compose_apply_coord(an, ad, uxn, uxd, bn, bd, vxn, vxd, pxn, pxd);
    lemma_common_factor_eqv(q1.x, q2.x, ad);

    assert(q1.y.n == ((an * bn) * pyn) * (uyd * (vyd * ad)) + (uyn * (vyd * ad) + (vyn * an)
        * uyd) * ((ad * bd) * pyd));
    assert(q1.y.d == ((ad * bd) * pyd) * (uyd * (vyd * ad)));
    assert(q2.y.n == (an * ((bn * pyn) * vyd + vyn * (bd * pyd))) * uyd + uyn * (ad * ((bd * pyd)
        * vyd)));
    assert(q2.y.d == (ad * ((bd * pyd) * vyd)) * uyd);
    lemma_compose_apply_coord(an, ad, uyn, uyd, bn, bd, vyn, vyd, pyn, pyd);
    lemma_common_factor_eqv(q1.y, q2.y, ad);
}

/// Left and right scalar products are deliberately asymmetric: for a scale
/// factor other than one and a transform with non-zero translation, the
/// left product scales the translation while the right product keeps it,
/// and both scale the scale factor the same way.
pub proof fn lemma_scalar_side_asymmetry(t: TsV, k: RatV)
    requires
        tsv_wf(t),
        rv_wf(k),
        !rv_eq(k, rv_one()),
        !vv_eq(t.translation, vv_zero()),
    ensures
        tsv_scale_left(t, k).scale == rv_mul(t.scale, k),
        tsv_scale_right(t, k).scale == rv_mul(t.scale, k),
        tsv_scale_right(t, k).translation == t.translation,
        !vv_eq(tsv_scale_left(t, k).translation, t.translation),
{
    let tx: RatV = t.translation.x;
    let ty: RatV = t.translation.y;
    assert(k.n != k.d) by (nonlinear_arith)
        requires
            k.n * 1 != 1 * k.d;
    if tx.n != 0 {
        assert(!((tx.n * k.n) * tx.d == tx.n * (tx.d * k.d))) by (nonlinear_arith)
            requires
                tx.n != 0,
                tx.d > 0,
                k.n != k.d;
    } else {
        assert(ty.n != 0);
        assert(!((ty.n * k.n) * ty.d == ty.n * (ty.d * k.d))) by (nonlinear_arith)
            requires
                ty.n != 0,
                ty.d > 0,
                k.n != k.d;
    }
}

/// The default transform is the identity: it returns every point unchanged.
pub proof fn lemma_identity_apply(p: PointV)
    requires
        pv_wf(p),
    ensures
        pv_eq(tsv_apply(tsv_identity(), p), p),
{
    lemma_scale_one_apply(rv_one(), rv_zero(), p.x);
    lemma_scale_one_apply(rv_one(), rv_zero(), p.y);
}

} // verus!
