//! Exact rotations of the plane.
//!
//! An angle in radians has, but for zero, no rational sine and cosine. A
//! [`Rotation`] therefore holds a rational point of the unit circle: the
//! cosine and the sine themselves. Adding angles is composing rotations.

use crate::algebra::lemma_mul_swap;
use crate::model::RealRotation;
use crate::rational::{lemma_product_bounds, lemma_unit_circle, Rational};
use vstd::prelude::*;

verus! {

/// A rotation by some angle, counter-clockwise positive.
#[derive(Clone, Copy, Debug, PartialEq, Eq, Structural)]
pub struct Rotation {
    cos: Rational,
    sin: Rational,
}

/// The identity is a rotation, and it is neutral for composition.
pub proof fn lemma_identity_rotation(a: RealRotation)
    ensures
        RealRotation::identity().is_unit(),
        a.compose(RealRotation::identity()) == a,
        RealRotation::identity().compose(a) == a,
{
    let (c, s) = (a.cos, a.sin);
    assert(1real * 1real + 0real * 0real == 1real) by (nonlinear_arith);
    assert(c * 1real - s * 0real == c && s * 1real + c * 0real == s) by (nonlinear_arith);
    assert(1real * c - 0real * s == c && 0real * c + 1real * s == s) by (nonlinear_arith);
}

/// Composing two rotations gives a rotation.
pub proof fn lemma_compose_unit(a: RealRotation, b: RealRotation)
    requires
        a.is_unit(),
        b.is_unit(),
    ensures
        a.compose(b).is_unit(),
{
    let (c1, s1, c2, s2) = (a.cos, a.sin, b.cos, b.sin);
    let cc = c1 * c2;
    let ss = s1 * s2;
    let sc = s1 * c2;
    let cs = c1 * s2;
    assert((cc - ss) * (cc - ss) + (sc + cs) * (sc + cs) == cc * cc + ss * ss + sc * sc + cs * cs
        - 2real * (cc * ss) + 2real * (sc * cs)) by (nonlinear_arith);
    lemma_mul_swap(c1, c2, s1, s2);
    lemma_mul_swap(s1, c2, c1, s2);
    assert(c1 * s1 == s1 * c1 && c2 * s2 == s2 * c2) by (nonlinear_arith);
    assert(cc * ss == sc * cs);
    lemma_mul_swap(c1, c2, c1, c2);
    lemma_mul_swap(s1, s2, s1, s2);
    lemma_mul_swap(s1, c2, s1, c2);
    lemma_mul_swap(c1, s2, c1, s2);
    let (p, q, r, t) = (c1 * c1, s1 * s1, c2 * c2, s2 * s2);
    assert((p + q) * (r + t) == p * r + p * t + q * r + q * t) by (nonlinear_arith);
    assert((p + q) * (r + t) == 1real) by (nonlinear_arith)
        requires
            p + q == 1real,
            r + t == 1real,
    ;
}

/// The opposite of a rotation is a rotation, and composing the two gives
/// the identity.
pub proof fn lemma_inverse_rotation(a: RealRotation)
    requires
        a.is_unit(),
    ensures
        a.inverse().is_unit(),
        a.compose(a.inverse()) == RealRotation::identity(),
        a.inverse().compose(a) == RealRotation::identity(),
{
    let (c, s) = (a.cos, a.sin);
    assert(c * c + (-s) * (-s) == c * c + s * s) by (nonlinear_arith);
    assert(c * c - s * (-s) == c * c + s * s && s * c + c * (-s) == 0real) by (nonlinear_arith);
    assert(c * c - (-s) * s == c * c + s * s && (-s) * c + c * s == 0real) by (nonlinear_arith);
}

/// Every half-angle tangent gives a rotation.
pub proof fn lemma_half_tangent_unit(t: real)
    ensures
        1real + t * t != 0real,
        RealRotation::from_half_tangent(t).is_unit(),
{
    let u = t * t;
    let d = 1real + u;
    assert(u >= 0real) by (nonlinear_arith)
        requires
            u == t * t,
    ;
    let c = (1real - u) / d;
    let s = (t + t) / d;
    assert(c * d == 1real - u && s * d == t + t) by (nonlinear_arith)
        requires
            d != 0real,
            c == (1real - u) / d,
            s == (t + t) / d,
    ;
    let cd = c * d;
    let sd = s * d;
    assert(cd * cd + sd * sd == d * d) by (nonlinear_arith)
        requires
            cd == 1real - u,
            sd == t + t,
            u == t * t,
            d == 1real + u,
    ;
    let n = c * c + s * s;
    let dd = d * d;
    assert(cd * cd + sd * sd == n * dd) by (nonlinear_arith)
        requires
            cd == c * d,
            sd == s * d,
            n == c * c + s * s,
            dd == d * d,
    ;
    assert(n == 1real) by (nonlinear_arith)
        requires
            n * dd == dd,
            dd == d * d,
            d > 0real,
    ;
}

impl Rotation {
    /// The cosine and the sine lie on the unit circle.
    #[verifier::type_invariant]
    pub open spec fn wf(self) -> bool {
        self@.is_unit()
    }

    /// The cosine and the sine as real numbers.
    pub closed spec fn view(&self) -> RealRotation {
        RealRotation { cos: self.cos@, sin: self.sin@ }
    }

    /// The rotation by the angle zero.
    pub fn identity() -> (r: Rotation)
        ensures
            r@ == RealRotation::identity(),
    {
        proof {
            lemma_identity_rotation(RealRotation::identity());
        }
        Rotation { cos: Rational::from_i32(1), sin: Rational::from_i32(0) }
    }

    /// The rotation with the given cosine and sine. `None` exactly when the
    /// two do not lie on the unit circle.
    pub fn new(cos: Rational, sin: Rational) -> (r: Option<Rotation>)
        ensures
            r is Some <==> (RealRotation { cos: cos@, sin: sin@ }).is_unit(),
            r matches Some(x) ==> x@ == (RealRotation { cos: cos@, sin: sin@ }),
    {
        let a = cos.numer() as i128;
        let b = cos.denom() as i128;
        let c = sin.numer() as i128;
        let d = sin.denom() as i128;
        proof {
            lemma_unit_circle(a as int, b as int, c as int, d as int);
            lemma_product_bounds(a as int, a as int);
            lemma_product_bounds(b as int, b as int);
            lemma_product_bounds(c as int, c as int);
        }
        if b == d && a * a + c * c == b * b {
            Some(Rotation { cos, sin })
        } else {
            None
        }
    }

    /// The rotation by the angle whose half has the tangent `t`: every
    /// rotation but the half turn is of this form. `None` exactly when a
    /// step of the computation is not representable.
    pub fn from_half_tangent(t: &Rational) -> (r: Option<Rotation>)
        ensures
            r is Some <==> RealRotation::half_tangent_fits(t@),
            r matches Some(x) ==> x@ == RealRotation::from_half_tangent(t@),
    {
        proof {
            lemma_half_tangent_unit(t@);
        }
        let one = Rational::from_i32(1);
        let square = match t.checked_mul(t) {
            Some(q) => q,
            None => { return None; },
        };
        let below = match one.checked_add(&square) {
            Some(q) => q,
            None => { return None; },
        };
        let above = match one.checked_sub(&square) {
            Some(q) => q,
            None => { return None; },
        };
        let twice = match t.checked_add(t) {
            Some(q) => q,
            None => { return None; },
        };
        match (above.checked_div(&below), twice.checked_div(&below)) {
            (Some(cos), Some(sin)) => Some(Rotation { cos, sin }),
            _ => None,
        }
    }

    /// The cosine of the angle.
    pub fn cos(&self) -> (c: Rational)
        ensures
            c@ == self@.cos,
    {
        self.cos
    }

    /// The sine of the angle.
    pub fn sin(&self) -> (s: Rational)
        ensures
            s@ == self@.sin,
    {
        self.sin
    }

    /// The rotation by the opposite angle.
    pub fn inverse(&self) -> (r: Rotation)
        ensures
            r@ == self@.inverse(),
    {
        proof {
            use_type_invariant(self);
            lemma_inverse_rotation(self@);
        }
        Rotation { cos: self.cos, sin: self.sin.neg() }
    }

    /// The rotation by the sum of the two angles. `None` exactly when a
    /// product, the difference or the sum is not representable.
    pub fn compose(&self, other: &Rotation) -> (r: Option<Rotation>)
        ensures
            r is Some <==> self@.compose_fits(other@),
            r matches Some(x) ==> x@ == self@.compose(other@),
    {
        proof {
            use_type_invariant(self);
            use_type_invariant(other);
            lemma_compose_unit(self@, other@);
        }
        let cc = self.cos.checked_mul(&other.cos);
        let ss = self.sin.checked_mul(&other.sin);
        let sc = self.sin.checked_mul(&other.cos);
        let cs = self.cos.checked_mul(&other.sin);
        match (cc, ss, sc, cs) {
            (Some(cc), Some(ss), Some(sc), Some(cs)) => {
                match (cc.checked_sub(&ss), sc.checked_add(&cs)) {
                    (Some(cos), Some(sin)) => Some(Rotation { cos, sin }),
                    _ => None,
                }
            },
            _ => None,
        }
    }
}

} // verus!
