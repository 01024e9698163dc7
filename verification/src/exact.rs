//! The four operations on rationals, failing with `Overflow`.

use crate::error::CameraError;
use crate::rational::{representable, Rational};
use vstd::prelude::*;

verus! {

/// `a + b`, or `Overflow` exactly when the sum is not representable.
pub fn sum(a: &Rational, b: &Rational) -> (r: Result<Rational, CameraError>)
    ensures
        match r {
            Ok(x) => representable(a@ + b@) && x@ == a@ + b@,
            Err(e) => e == CameraError::Overflow && !representable(a@ + b@),
        },
{
    match a.checked_add(b) {
        Some(x) => Ok(x),
        None => Err(CameraError::Overflow),
    }
}

/// `a - b`, or `Overflow` exactly when the difference is not representable.
pub fn difference(a: &Rational, b: &Rational) -> (r: Result<Rational, CameraError>)
    ensures
        match r {
            Ok(x) => representable(a@ - b@) && x@ == a@ - b@,
            Err(e) => e == CameraError::Overflow && !representable(a@ - b@),
        },
{
    match a.checked_sub(b) {
        Some(x) => Ok(x),
        None => Err(CameraError::Overflow),
    }
}

/// `a * b`, or `Overflow` exactly when the product is not representable.
pub fn product(a: &Rational, b: &Rational) -> (r: Result<Rational, CameraError>)
    ensures
        match r {
            Ok(x) => representable(a@ * b@) && x@ == a@ * b@,
            Err(e) => e == CameraError::Overflow && !representable(a@ * b@),
        },
{
    match a.checked_mul(b) {
        Some(x) => Ok(x),
        None => Err(CameraError::Overflow),
    }
}

/// `a / b` for a divisor other than zero, or `Overflow` exactly when the
/// quotient is not representable.
pub fn quotient(a: &Rational, b: &Rational) -> (r: Result<Rational, CameraError>)
    requires
        b@ != 0real,
    ensures
        match r {
            Ok(x) => representable(a@ / b@) && x@ == a@ / b@,
            Err(e) => e == CameraError::Overflow && !representable(a@ / b@),
        },
{
    match a.checked_div(b) {
        Some(x) => Ok(x),
        None => Err(CameraError::Overflow),
    }
}

} // verus!
