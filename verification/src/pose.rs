//! The matrix of a pose: a rotation, a scale, and one point whose image is
//! given. Cameras and transforms both build their matrix this way.

use crate::error::CameraError;
use crate::exact::{difference, product, sum};
use crate::matrix::Matrix4;
use crate::model::{Real2, RealMatrix4, RealRotation};
use crate::rational::representable;
use crate::rotation::Rotation;
use crate::vector::{Point2, Vector2};
use vstd::prelude::*;

verus! {

/// The affine map of the plane with linear part `R(rotation) * diag(scale)`
/// whose translation is `target - linear(origin)`, in homogeneous form.
pub open spec fn pose_matrix(
    rotation: RealRotation,
    scale: Real2,
    origin: Real2,
    target: Real2,
) -> RealMatrix4 {
    let m00 = rotation.cos * scale.x;
    let m01 = -(rotation.sin * scale.y);
    let m10 = rotation.sin * scale.x;
    let m11 = rotation.cos * scale.y;
    RealMatrix4::affine(
        m00,
        m01,
        m10,
        m11,
        origin.x * (-m00) - origin.y * m01 + target.x,
        origin.y * (-m11) - origin.x * m10 + target.y,
    )
}

/// Every product, difference and sum on the way to `pose_matrix` is
/// representable.
pub open spec fn pose_matrix_fits(
    rotation: RealRotation,
    scale: Real2,
    origin: Real2,
    target: Real2,
) -> bool {
    let m00 = rotation.cos * scale.x;
    let m01 = -(rotation.sin * scale.y);
    let m10 = rotation.sin * scale.x;
    let m11 = rotation.cos * scale.y;
    &&& representable(m00)
    &&& representable(rotation.sin * scale.y)
    &&& representable(m10)
    &&& representable(m11)
    &&& representable(origin.x * (-m00))
    &&& representable(origin.y * m01)
    &&& representable(origin.x * (-m00) - origin.y * m01)
    &&& representable(origin.x * (-m00) - origin.y * m01 + target.x)
    &&& representable(origin.y * (-m11))
    &&& representable(origin.x * m10)
    &&& representable(origin.y * (-m11) - origin.x * m10)
    &&& representable(origin.y * (-m11) - origin.x * m10 + target.y)
}

/// Builds `pose_matrix`. Fails with `Overflow` exactly when a value on the
/// way is not representable.
pub fn build_pose_matrix(
    rotation: &Rotation,
    scale: &Vector2,
    origin: &Point2,
    target: &Point2,
) -> (r: Result<Matrix4, CameraError>)
    ensures
        match r {
            Ok(m) => pose_matrix_fits(rotation@, scale@, origin@, target@) && m@ == pose_matrix(
                rotation@,
                scale@,
                origin@,
                target@,
            ),
            Err(e) => e == CameraError::Overflow && !pose_matrix_fits(
                rotation@,
                scale@,
                origin@,
                target@,
            ),
        },
{
    let cos = rotation.cos();
    let sin = rotation.sin();
    let m00 = product(&cos, &scale.x)?;
    let m01 = product(&sin, &scale.y)?.neg();
    let m10 = product(&sin, &scale.x)?;
    let m11 = product(&cos, &scale.y)?;
    let m03 = sum(
        &difference(&product(&origin.x, &m00.neg())?, &product(&origin.y, &m01)?)?,
        &target.x,
    )?;
    let m13 = sum(
        &difference(&product(&origin.y, &m11.neg())?, &product(&origin.x, &m10)?)?,
        &target.y,
    )?;
    Ok(Matrix4::affine(m00, m01, m10, m11, m03, m13))
}

} // verus!
