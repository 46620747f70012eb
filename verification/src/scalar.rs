//! Exact rational scalars.
//!
//! A scalar is a fraction of two machine integers with a positive
//! denominator. Its mathematical meaning is the view [`RatV`], a fraction of
//! unbounded integers; two fractions denote the same rational number exactly
//! when they cross-multiply to the same product ([`rv_eq`]).

use vstd::prelude::*;

verus! {

/// Mathematical view of a scalar: a fraction `n / d` of unbounded integers.
pub ghost struct RatV {
    pub n: int,
    pub d: int,
}

/// A fraction is well formed when its denominator is positive.
pub open spec fn rv_wf(a: RatV) -> bool {
    a.d > 0
}

/// Two fractions denote the same rational number.
pub open spec fn rv_eq(a: RatV, b: RatV) -> bool {
    a.n * b.d == b.n * a.d
}

/// Fraction order; it means `a <= b` whenever both denominators are positive.
pub open spec fn rv_le(a: RatV, b: RatV) -> bool {
    a.n * b.d <= b.n * a.d
}

pub open spec fn rv_zero() -> RatV {
    RatV { n: 0, d: 1 }
}

pub open spec fn rv_one() -> RatV {
    RatV { n: 1, d: 1 }
}

pub open spec fn rv_add(a: RatV, b: RatV) -> RatV {
    RatV { n: a.n * b.d + b.n * a.d, d: a.d * b.d }
}

pub open spec fn rv_mul(a: RatV, b: RatV) -> RatV {
    RatV { n: a.n * b.n, d: a.d * b.d }
}

pub open spec fn rv_neg(a: RatV) -> RatV {
    RatV { n: -a.n, d: a.d }
}

pub open spec fn rv_sub(a: RatV, b: RatV) -> RatV {
    rv_add(a, rv_neg(b))
}

/// The reciprocal, with the sign moved so the denominator stays positive.
pub open spec fn rv_recip(a: RatV) -> RatV {
    if a.n >= 0 {
        RatV { n: a.d, d: a.n }
    } else {
        RatV { n: -a.d, d: -a.n }
    }
}

pub open spec fn rv_min(a: RatV, b: RatV) -> RatV {
    if rv_le(a, b) {
        a
    } else {
        b
    }
}

pub open spec fn rv_max(a: RatV, b: RatV) -> RatV {
    if rv_le(a, b) {
        b
    } else {
        a
    }
}

/// An unbounded integer that a machine word can hold.
pub open spec fn in_i64(x: int) -> bool {
    i64::MIN <= x <= i64::MAX
}

pub open spec fn rv_fits(a: RatV) -> bool {
    in_i64(a.n) && in_i64(a.d)
}

/// The sum of two fractions, and both cross products, stay in machine range.
pub open spec fn add_fits(a: RatV, b: RatV) -> bool {
    in_i64(a.n * b.d) && in_i64(b.n * a.d) && rv_fits(rv_add(a, b))
}

/// The product of two fractions stays in machine range.
pub open spec fn mul_fits(a: RatV, b: RatV) -> bool {
    rv_fits(rv_mul(a, b))
}

pub proof fn lemma_pos_mul_pos(a: int, b: int)
    by (nonlinear_arith)
    requires
        a > 0,
        b > 0,
    ensures
        a * b > 0,
{
}

pub proof fn lemma_i64_prod_in_i128(a: int, b: int)
    by (nonlinear_arith)
    requires
        -0x8000_0000_0000_0000 <= a <= 0x7fff_ffff_ffff_ffff,
        -0x8000_0000_0000_0000 <= b <= 0x7fff_ffff_ffff_ffff,
    ensures
        -0x4000_0000_0000_0000_0000_0000_0000_0000 <= a * b
            <= 0x4000_0000_0000_0000_0000_0000_0000_0000,
{
}

/// An exact scalar: the rational number `n / d`, with `d` kept positive.
#[derive(Clone, Copy)]
pub struct Rat {
    n: i64,
    d: i64,
}

impl View for Rat {
    type V = RatV;

    closed spec fn view(&self) -> RatV {
        RatV { n: self.n as int, d: self.d as int }
    }
}

impl Rat {
    pub open spec fn wf(self) -> bool {
        rv_wf(self@)
    }

    /// Both components of a scalar are machine words.
    pub proof fn view_bounds(self)
        ensures
            in_i64(self@.n),
            in_i64(self@.d),
    {
    }

    /// The rational `n / d`, with the sign moved into the numerator.
    pub fn new(n: i64, d: i64) -> (r: Rat)
        requires
            d != 0,
            n > i64::MIN,
            d > i64::MIN,
        ensures
            r.wf(),
            r@ == (if d > 0 {
                RatV { n: n as int, d: d as int }
            } else {
                RatV { n: -(n as int), d: -(d as int) }
            }),
    {
        if d > 0 {
            Rat { n, d }
        } else {
            Rat { n: -n, d: -d }
        }
    }

    pub fn from_int(n: i64) -> (r: Rat)
        ensures
            r.wf(),
            r@ == (RatV { n: n as int, d: 1 }),
    {
        Rat { n, d: 1 }
    }

    pub fn zero() -> (r: Rat)
        ensures
            r.wf(),
            r@ == rv_zero(),
    {
        Rat { n: 0, d: 1 }
    }

    pub fn one() -> (r: Rat)
        ensures
            r.wf(),
            r@ == rv_one(),
    {
        Rat { n: 1, d: 1 }
    }

    pub fn plus(self, other: Rat) -> (r: Rat)
        requires
            self.wf(),
            other.wf(),
            add_fits(self@, other@),
        ensures
            r.wf(),
            r@ == rv_add(self@, other@),
    {
        proof {
            lemma_pos_mul_pos(self@.d, other@.d);
        }
        Rat { n: self.n * other.d + other.n * self.d, d: self.d * other.d }
    }

    pub fn neg(self) -> (r: Rat)
        requires
            self@.n > i64::MIN,
        ensures
            r@ == rv_neg(self@),
    {
        Rat { n: -self.n, d: self.d }
    }

    pub fn minus(self, other: Rat) -> (r: Rat)
        requires
            self.wf(),
            other.wf(),
            other@.n > i64::MIN,
            add_fits(self@, rv_neg(other@)),
        ensures
            r.wf(),
            r@ == rv_sub(self@, other@),
    {
        self.plus(other.neg())
    }

    pub fn times(self, other: Rat) -> (r: Rat)
        requires
            self.wf(),
            other.wf(),
            mul_fits(self@, other@),
        ensures
            r.wf(),
            r@ == rv_mul(self@, other@),
    {
        proof {
            lemma_pos_mul_pos(self@.d, other@.d);
        }
        Rat { n: self.n * other.n, d: self.d * other.d }
    }

    /// The reciprocal; the denominator must not vanish, so a zero
    /// numerator is ruled out by the caller.
    pub fn recip(self) -> (r: Rat)
        requires
            self.wf(),
            self@.n != 0,
            self@.n > i64::MIN,
        ensures
            r.wf(),
            r@ == rv_recip(self@),
    {
        if self.n > 0 {
            Rat { n: self.d, d: self.n }
        } else {
            Rat { n: -self.d, d: -self.n }
        }
    }

    /// Exact equality of the denoted rational numbers.
    pub fn eqv(self, other: Rat) -> (r: bool)
        ensures
            r == rv_eq(self@, other@),
    {
        proof {
            lemma_i64_prod_in_i128(self@.n, other@.d);
            lemma_i64_prod_in_i128(other@.n, self@.d);
        }
        (self.n as i128) * (other.d as i128) == (other.n as i128) * (self.d as i128)
    }

    pub fn le(self, other: Rat) -> (r: bool)
        ensures
            r == rv_le(self@, other@),
    {
        proof {
            lemma_i64_prod_in_i128(self@.n, other@.d);
            lemma_i64_prod_in_i128(other@.n, self@.d);
        }
        (self.n as i128) * (other.d as i128) <= (other.n as i128) * (self.d as i128)
    }

    pub fn min_of(self, other: Rat) -> (r: Rat)
        ensures
            r@ == rv_min(self@, other@),
    {
        if self.le(other) {
            self
        } else {
            other
        }
    }

    pub fn max_of(self, other: Rat) -> (r: Rat)
        ensures
            r@ == rv_max(self@, other@),
    {
        if self.le(other) {
            other
        } else {
            self
        }
    }
}

} // verus!
