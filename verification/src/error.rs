//! The ways in which a camera or transform operation can fail.

use vstd::prelude::*;

verus! {

/// Why an operation was refused. A refused operation changes nothing.
#[derive(Clone, Copy, Debug, PartialEq, Eq, Structural)]
pub enum CameraError {
    /// A transform's scale or a camera's zoom has a zero component, so the
    /// matrix that the operation needs cannot be inverted or the pivot cannot
    /// be de-scaled.
    DegenerateScale,
    /// A zoom or scale factor with a zero component was handed to a mutator.
    InvalidFactor,
    /// The exact result, or a value on the way to it, is not representable.
    Overflow,
}

} // verus!
