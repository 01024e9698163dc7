//! Points and vectors with exact rational coordinates.

use crate::model::{Real2, Real4};
use crate::rational::Rational;
use vstd::prelude::*;

verus! {

/// A point of the plane.
#[derive(Clone, Copy, Debug, PartialEq, Eq, Structural)]
pub struct Point2 {
    pub x: Rational,
    pub y: Rational,
}

/// A vector of the plane: a displacement, a size, or a pair of factors.
#[derive(Clone, Copy, Debug, PartialEq, Eq, Structural)]
pub struct Vector2 {
    pub x: Rational,
    pub y: Rational,
}

/// A row of a 4x4 matrix.
#[derive(Clone, Copy, Debug, PartialEq, Eq, Structural)]
pub struct Vector4 {
    pub x: Rational,
    pub y: Rational,
    pub z: Rational,
    pub w: Rational,
}

impl Point2 {
    /// The coordinates as real numbers.
    pub open spec fn view(&self) -> Real2 {
        Real2 { x: self.x@, y: self.y@ }
    }

    /// The point `(x, y)`.
    pub fn new(x: Rational, y: Rational) -> (p: Point2)
        ensures
            p == (Point2 { x, y }),
    {
        Point2 { x, y }
    }

    /// The point with the given integer coordinates.
    pub fn from_i32(x: i32, y: i32) -> (p: Point2)
        ensures
            p@ == (Real2 { x: x as real, y: y as real }),
    {
        Point2 { x: Rational::from_i32(x), y: Rational::from_i32(y) }
    }
}

impl Vector2 {
    /// The coordinates as real numbers.
    pub open spec fn view(&self) -> Real2 {
        Real2 { x: self.x@, y: self.y@ }
    }

    /// The vector `(x, y)`.
    pub fn new(x: Rational, y: Rational) -> (v: Vector2)
        ensures
            v == (Vector2 { x, y }),
    {
        Vector2 { x, y }
    }

    /// The vector with the given integer coordinates.
    pub fn from_i32(x: i32, y: i32) -> (v: Vector2)
        ensures
            v@ == (Real2 { x: x as real, y: y as real }),
    {
        Vector2 { x: Rational::from_i32(x), y: Rational::from_i32(y) }
    }

    /// Whether some coordinate is zero.
    pub fn has_zero(&self) -> (z: bool)
        ensures
            z <==> !self@.no_zero(),
    {
        self.x.is_zero() || self.y.is_zero()
    }
}

impl Vector4 {
    /// The coordinates as real numbers.
    pub open spec fn view(&self) -> Real4 {
        Real4 { x: self.x@, y: self.y@, z: self.z@, w: self.w@ }
    }

    /// The scalar product. `None` exactly when a product or a partial sum,
    /// taken from left to right, is not representable.
    pub fn dot(&self, other: &Vector4) -> (r: Option<Rational>)
        ensures
            r is Some <==> self@.dot_fits(other@),
            r matches Some(d) ==> d@ == self@.dot(other@),
    {
        let px = self.x.checked_mul(&other.x);
        let py = self.y.checked_mul(&other.y);
        let pz = self.z.checked_mul(&other.z);
        let pw = self.w.checked_mul(&other.w);
        match (px, py, pz, pw) {
            (Some(px), Some(py), Some(pz), Some(pw)) => {
                match px.checked_add(&py) {
                    Some(s1) => match s1.checked_add(&pz) {
                        Some(s2) => s2.checked_add(&pw),
                        None => None,
                    },
                    None => None,
                }
            },
            _ => None,
        }
    }
}

} // verus!
