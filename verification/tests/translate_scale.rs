use translate_scale::Affine;
use translate_scale::Circle;
use translate_scale::Point;
use translate_scale::Rat;
use translate_scale::Rect;
use translate_scale::TranslateScale;
use translate_scale::Vec2;

fn ri(n: i64) -> Rat {
    Rat::from_int(n)
}

fn rq(n: i64, d: i64) -> Rat {
    Rat::new(n, d)
}

fn pt(x: i64, y: i64) -> Point {
    Point::new(ri(x), ri(y))
}

fn assert_pt_eqv(p0: Point, p1: Point) {
    assert!(p0.eqv(p1));
}

#[test]
fn translate_scale() {
    let p = pt(3, 4);
    let ts = TranslateScale::new(Vec2::new(ri(5), ri(6)), ri(2));

    assert_pt_eqv(ts.apply_to_point(p), pt(11, 14));
}

#[test]
fn conversions() {
    let p = pt(3, 4);
    let s = ri(2);
    let t = Vec2::new(ri(5), ri(6));
    let ts = TranslateScale::new(t, s);

    // Test that conversion to affine is consistent.
    let a: Affine = ts.to_affine();
    assert_pt_eqv(ts.apply_to_point(p), a.apply_to_point(p));

    assert_pt_eqv(
        p.to_vec2().times(s).to_point(),
        TranslateScale::scale(s).apply_to_point(p),
    );
    assert_pt_eqv(p.plus(t), TranslateScale::translate(t).apply_to_point(p));
}

#[test]
fn inverse() {
    let p = pt(3, 4);
    let ts = TranslateScale::new(Vec2::new(ri(5), ri(6)), ri(2));

    assert_pt_eqv(p, ts.compose(ts.inverse()).apply_to_point(p));
    assert_pt_eqv(p, ts.inverse().compose(ts).apply_to_point(p));
}

#[test]
fn scalar_arithmetic_exact() {
    assert!(rq(1, 2).plus(rq(1, 3)).eqv(rq(5, 6)));
    assert!(rq(1, 2).minus(rq(1, 3)).eqv(rq(1, 6)));
    assert!(rq(2, 3).times(rq(9, 4)).eqv(rq(3, 2)));
    assert!(rq(-2, 4).recip().eqv(ri(-2)));
    assert!(rq(3, -4).eqv(rq(-3, 4)));
    assert!(ri(0).neg().eqv(Rat::zero()));
    assert!(rq(1, 3).le(rq(1, 2)));
    assert!(!rq(1, 2).le(rq(1, 3)));
    assert!(rq(1, 3).min_of(rq(1, 2)).eqv(rq(1, 3)));
    assert!(rq(1, 3).max_of(rq(1, 2)).eqv(rq(1, 2)));
    assert!(Rat::one().eqv(rq(7, 7)));
}

#[test]
fn conversion_consistency_fractional() {
    let ts = TranslateScale::new(Vec2::new(rq(1, 2), rq(-3, 4)), rq(5, 3));
    let p = Point::new(rq(2, 7), ri(1));
    let a = ts.to_affine();
    assert_pt_eqv(ts.apply_to_point(p), a.apply_to_point(p));
}

#[test]
fn scale_only_matches_scaled_vector() {
    let s = rq(-3, 2);
    let p = Point::new(rq(1, 3), ri(4));
    assert_pt_eqv(
        TranslateScale::scale(s).apply_to_point(p),
        p.to_vec2().times(s).to_point(),
    );
}

#[test]
fn translate_only_matches_point_offset() {
    let v = Vec2::new(rq(-1, 2), ri(7));
    let p = Point::new(ri(2), rq(5, 3));
    assert_pt_eqv(TranslateScale::translate(v).apply_to_point(p), p.plus(v));
}

#[test]
fn compose_associates_with_apply() {
    let a = TranslateScale::new(Vec2::new(ri(1), ri(-2)), rq(3, 2));
    let b = TranslateScale::new(Vec2::new(rq(-1, 3), ri(4)), ri(-2));
    let c = TranslateScale::new(Vec2::new(ri(0), rq(1, 5)), rq(2, 7));
    let p = Point::new(ri(2), rq(-3, 4));

    assert_pt_eqv(
        a.compose(b).apply_to_point(p),
        a.apply_to_point(b.apply_to_point(p)),
    );
    assert_pt_eqv(
        a.compose(b).compose(c).apply_to_point(p),
        a.compose(b.compose(c)).apply_to_point(p),
    );
}

#[test]
fn inverse_round_trip_negative_scale() {
    let p = Point::new(rq(1, 3), ri(-7));
    let ts = TranslateScale::new(Vec2::new(ri(5), ri(6)), ri(-2));
    assert_pt_eqv(p, ts.compose(ts.inverse()).apply_to_point(p));
    assert_pt_eqv(p, ts.inverse().compose(ts).apply_to_point(p));

    let fr = TranslateScale::new(Vec2::new(rq(-2, 5), rq(7, 3)), rq(-4, 9));
    assert_pt_eqv(p, fr.compose(fr.inverse()).apply_to_point(p));
    assert_pt_eqv(p, fr.inverse().compose(fr).apply_to_point(p));
}

#[test]
fn scalar_side_asymmetry() {
    // A pure scale by 2, multiplied by 2 on either side, has scale 4.
    let t = TranslateScale::scale(ri(2));
    let (_, left_scale) = t.scale_by_left(ri(2)).as_tuple();
    let (_, right_scale) = t.scale_by_right(ri(2)).as_tuple();
    assert!(left_scale.eqv(ri(4)));
    assert!(right_scale.eqv(ri(4)));

    // With a translation of (1, 0), the left product scales it to (2, 0)
    // while the right product keeps (1, 0).
    let t = TranslateScale::new(Vec2::new(ri(1), ri(0)), ri(2));
    let (lt, ls) = t.scale_by_left(ri(2)).as_tuple();
    let (rt, rs) = t.scale_by_right(ri(2)).as_tuple();
    assert!(lt.eqv(Vec2::new(ri(2), ri(0))));
    assert!(rt.eqv(Vec2::new(ri(1), ri(0))));
    assert!(ls.eqv(ri(4)));
    assert!(rs.eqv(ri(4)));
}

#[test]
fn default_is_identity() {
    let p = Point::new(rq(-7, 3), ri(9));
    assert_pt_eqv(TranslateScale::default().apply_to_point(p), p);
    assert_pt_eqv(TranslateScale::identity().apply_to_point(p), p);

    let (t, s) = TranslateScale::default().as_tuple();
    assert!(t.eqv(Vec2::zero()));
    assert!(s.eqv(Rat::one()));
}

#[test]
fn circle_transform() {
    let ts = TranslateScale::new(Vec2::new(ri(5), ri(6)), ri(2));
    let c = Circle::new(pt(1, 1), rq(3, 2));
    let mapped = ts.apply_to_circle(c);
    assert_pt_eqv(mapped.center, pt(7, 8));
    assert!(mapped.radius.eqv(ri(3)));

    // A negative scale keeps the radius sign convention of the product.
    let flip = TranslateScale::scale(ri(-2));
    let mapped = flip.apply_to_circle(Circle::new(pt(0, 0), ri(2)));
    assert!(mapped.radius.eqv(ri(-4)));
}

#[test]
fn rect_transform_normalizes() {
    let flip = TranslateScale::scale(ri(-1));
    let r = Rect::new(ri(0), ri(0), ri(1), ri(2));
    let mapped = flip.apply_to_rect(r);
    assert!(mapped.x0.eqv(ri(-1)));
    assert!(mapped.y0.eqv(ri(-2)));
    assert!(mapped.x1.eqv(ri(0)));
    assert!(mapped.y1.eqv(ri(0)));

    let ts = TranslateScale::new(Vec2::new(ri(5), ri(6)), ri(2));
    let mapped = ts.apply_to_rect(r);
    assert!(mapped.x0.eqv(ri(5)));
    assert!(mapped.y0.eqv(ri(6)));
    assert!(mapped.x1.eqv(ri(7)));
    assert!(mapped.y1.eqv(ri(10)));

    let same = Rect::from_points(pt(1, 2), pt(0, 0));
    assert!(same.x0.eqv(ri(0)));
    assert!(same.y0.eqv(ri(0)));
    assert!(same.x1.eqv(ri(1)));
    assert!(same.y1.eqv(ri(2)));
}

#[test]
fn translate_by_adjusts_translation_only() {
    let ts = TranslateScale::new(Vec2::new(ri(5), ri(6)), ri(2));
    let v = Vec2::new(ri(-1), rq(1, 2));

    let (t, s) = ts.translate_by(v).as_tuple();
    assert!(t.eqv(Vec2::new(ri(4), rq(13, 2))));
    assert!(s.eqv(ri(2)));

    let (t, s) = ts.translate_by_negated(v).as_tuple();
    assert!(t.eqv(Vec2::new(ri(6), rq(11, 2))));
    assert!(s.eqv(ri(2)));

    // Adding and then subtracting the same vector gives the original back.
    let (t, _) = ts.translate_by(v).translate_by_negated(v).as_tuple();
    assert!(t.eqv(Vec2::new(ri(5), ri(6))));

    // Subtracting a vector is adding its negation.
    let (t, _) = ts.translate_by(v.neg()).as_tuple();
    let (t2, _) = ts.translate_by_negated(v).as_tuple();
    assert!(t.eqv(t2));
}

#[test]
fn compound_assignment_variants() {
    let a = TranslateScale::new(Vec2::new(ri(1), ri(-2)), rq(3, 2));
    let b = TranslateScale::new(Vec2::new(rq(-1, 3), ri(4)), ri(-2));
    let v = Vec2::new(ri(7), rq(-2, 5));
    let p = Point::new(ri(2), rq(-3, 4));

    let mut t = a;
    t.compose_assign(b);
    assert_pt_eqv(t.apply_to_point(p), a.compose(b).apply_to_point(p));

    let mut t = a;
    t.translate_by_assign(v);
    assert_pt_eqv(t.apply_to_point(p), a.translate_by(v).apply_to_point(p));

    let mut t = a;
    t.translate_by_negated_assign(v);
    assert_pt_eqv(
        t.apply_to_point(p),
        a.translate_by_negated(v).apply_to_point(p),
    );
}

#[test]
fn as_tuple_returns_parts() {
    let t = Vec2::new(rq(5, 2), ri(6));
    let s = rq(-2, 3);
    let (t2, s2) = TranslateScale::new(t, s).as_tuple();
    assert!(t2.eqv(t));
    assert!(s2.eqv(s));
}

#[test]
fn zero_scale_collapses_points() {
    let ts = TranslateScale::new(Vec2::new(ri(5), ri(6)), ri(0));
    assert_pt_eqv(ts.apply_to_point(pt(3, 4)), pt(5, 6));
    assert_pt_eqv(ts.apply_to_point(pt(-100, 41)), pt(5, 6));
}
