//! The local transform of a drawable object.

use crate::error::CameraError;
use crate::exact::quotient;
use crate::laws::{lemma_identity_matrix, lemma_pose_origin};
use crate::matrix::Matrix4;
use crate::model::{Real2, RealMatrix4, RealRotation, RealTransform};
use crate::pose::{build_pose_matrix, pose_matrix, pose_matrix_fits};
use crate::rational::representable;
use crate::rotation::Rotation;
use crate::vector::{Point2, Vector2};
use vstd::prelude::*;

verus! {

/// An object's pose relative to its parent space.
///
/// `offset` is the pivot, in the object's own unscaled units: the point that
/// rotation and scale hold fixed, and that `dest` places in the parent
/// space. Both components of `scale` are meant to be other than zero.
#[derive(Clone, Copy, Debug, PartialEq, Eq, Structural)]
pub struct Transform {
    pub dest: Point2,
    pub rotation: Rotation,
    pub scale: Vector2,
    pub offset: Point2,
}

impl RealTransform {
    /// The pose that changes nothing.
    pub open spec fn identity() -> RealTransform {
        RealTransform {
            dest: Real2 { x: 0real, y: 0real },
            rotation: RealRotation::identity(),
            scale: Real2 { x: 1real, y: 1real },
            offset: Real2 { x: 0real, y: 0real },
        }
    }

    /// The pivot divided by the scale, component by component: the local
    /// point that the matrix sends to `dest`.
    pub open spec fn descaled_pivot(self) -> Real2 {
        Real2 { x: self.offset.x / self.scale.x, y: self.offset.y / self.scale.y }
    }

    /// The local matrix, from local coordinates to the parent's: linear part
    /// `R(rotation) * diag(scale)`, translated so that the de-scaled pivot
    /// goes to `dest`.
    pub open spec fn matrix(self) -> RealMatrix4 {
        pose_matrix(self.rotation, self.scale, self.descaled_pivot(), self.dest)
    }

    /// Every value on the way to `matrix` is representable.
    pub open spec fn matrix_fits(self) -> bool {
        &&& representable(self.offset.x / self.scale.x)
        &&& representable(self.offset.y / self.scale.y)
        &&& pose_matrix_fits(self.rotation, self.scale, self.descaled_pivot(), self.dest)
    }
}

impl Transform {
    /// The pose in real numbers.
    pub open spec fn view(&self) -> RealTransform {
        RealTransform {
            dest: self.dest@,
            rotation: self.rotation@,
            scale: self.scale@,
            offset: self.offset@,
        }
    }

    /// The local matrix of the pose.
    ///
    /// Fails with `DegenerateScale` exactly when a component of the scale is
    /// zero, and otherwise with `Overflow` exactly when a value on the way is
    /// not representable.
    pub fn to_matrix(&self) -> (r: Result<Matrix4, CameraError>)
        ensures
            match r {
                Ok(m) => {
                    &&& self@.scale.no_zero()
                    &&& self@.matrix_fits()
                    &&& m@ == self@.matrix()
                    &&& m@.transform_point2(self@.descaled_pivot()) == self@.dest
                },
                Err(CameraError::DegenerateScale) => !self@.scale.no_zero(),
                Err(CameraError::Overflow) => self@.scale.no_zero() && !self@.matrix_fits(),
                Err(CameraError::InvalidFactor) => false,
            },
    {
        if self.scale.has_zero() {
            return Err(CameraError::DegenerateScale);
        }
        proof {
            lemma_pose_origin(self@.rotation, self@.scale, self@.descaled_pivot(), self@.dest);
        }
        let pivot = Point2 {
            x: quotient(&self.offset.x, &self.scale.x)?,
            y: quotient(&self.offset.y, &self.scale.y)?,
        };
        build_pose_matrix(&self.rotation, &self.scale, &pivot, &self.dest)
    }

    /// The matrix of the pose inside a parent: `parent_matrix * matrix`, so
    /// that local coordinates go through the object's own matrix first and
    /// through the parent's after.
    ///
    /// Fails as `to_matrix` does, and with `Overflow` also when the product
    /// does not fit.
    pub fn apply_matrix(&self, parent_matrix: &Matrix4) -> (r: Result<Matrix4, CameraError>)
        ensures
            match r {
                Ok(m) => {
                    &&& self@.scale.no_zero()
                    &&& self@.matrix_fits()
                    &&& parent_matrix@.mul_fits(self@.matrix())
                    &&& m@ == parent_matrix@.mul(self@.matrix())
                },
                Err(CameraError::DegenerateScale) => !self@.scale.no_zero(),
                Err(CameraError::Overflow) => self@.scale.no_zero() && !(self@.matrix_fits()
                    && parent_matrix@.mul_fits(self@.matrix())),
                Err(CameraError::InvalidFactor) => false,
            },
    {
        let local = self.to_matrix()?;
        parent_matrix.mul_mat4(&local)
    }
}

impl Default for Transform {
    /// The pose that changes nothing: no translation, no rotation, scale
    /// one, pivot at the origin.
    fn default() -> (t: Transform)
        ensures
            t@ == RealTransform::identity(),
            t@.matrix() == RealMatrix4::identity(),
    {
        proof {
            lemma_identity_matrix();
        }
        Transform {
            dest: Point2::from_i32(0, 0),
            rotation: Rotation::identity(),
            scale: Vector2::from_i32(1, 1),
            offset: Point2::from_i32(0, 0),
        }
    }
}

} // verus!
