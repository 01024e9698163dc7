//! The camera: a view of the world on the screen.

use crate::error::CameraError;
use crate::exact::{difference, product, quotient, sum};
use crate::laws::{
    lemma_inverse_matrix,
    lemma_pose_origin,
    lemma_round_trip,
    lemma_zoom_keeps_point,
};
use crate::matrix::Matrix4;
use crate::model::{Real2, RealCamera, RealMatrix4, RealRotation, RealTransform};
use crate::pose::{build_pose_matrix, pose_matrix, pose_matrix_fits};
use crate::rational::{representable, Rational};
use crate::rotation::Rotation;
use crate::transform::Transform;
use crate::vector::{Point2, Vector2};
use vstd::prelude::*;

verus! {

/// A camera on a 2D world.
///
/// `offset` is the anchor, a fixed point of the screen in pixels; `position`
/// is the point of the world that is shown there. `scale` is the zoom, by
/// axis; both of its components are meant to be other than zero. Unlike the
/// pivot of a [`Transform`], the anchor is never divided by the zoom.
#[derive(Clone, Copy, Debug, PartialEq, Eq, Structural)]
pub struct Camera {
    pub offset: Point2,
    pub rotation: Rotation,
    pub scale: Vector2,
    pub position: Point2,
}

impl RealCamera {
    /// The camera that shows the world as it is: anchor and position at the
    /// origin, no rotation, zoom one.
    pub open spec fn identity() -> RealCamera {
        RealCamera {
            offset: Real2 { x: 0real, y: 0real },
            rotation: RealRotation::identity(),
            scale: Real2 { x: 1real, y: 1real },
            position: Real2 { x: 0real, y: 0real },
        }
    }

    /// The view matrix, from world to screen: linear part
    /// `R(rotation) * diag(scale)`, translated so that `position` goes to
    /// the anchor.
    pub open spec fn matrix(self) -> RealMatrix4 {
        pose_matrix(self.rotation, self.scale, self.position, self.offset)
    }

    /// Every value on the way to `matrix` is representable.
    pub open spec fn matrix_fits(self) -> bool {
        pose_matrix_fits(self.rotation, self.scale, self.position, self.offset)
    }

    /// The anchor invariant: the position is shown at the anchor.
    pub open spec fn anchored(self) -> bool {
        self.world_to_screen_coords(self.position) == self.offset
    }

    /// The matrix from screen to world: linear part
    /// `diag(1 / scale) * R(-rotation)`, translated so that the anchor goes
    /// to `position`.
    pub open spec fn inverse_matrix(self) -> RealMatrix4 {
        let i00 = self.rotation.cos / self.scale.x;
        let i01 = self.rotation.sin / self.scale.x;
        let i10 = -(self.rotation.sin / self.scale.y);
        let i11 = self.rotation.cos / self.scale.y;
        RealMatrix4::affine(
            i00,
            i01,
            i10,
            i11,
            self.position.x - (i00 * self.offset.x + i01 * self.offset.y),
            self.position.y - (i10 * self.offset.x + i11 * self.offset.y),
        )
    }

    /// Every value on the way to `inverse_matrix` is representable.
    pub open spec fn inverse_matrix_fits(self) -> bool {
        let i00 = self.rotation.cos / self.scale.x;
        let i01 = self.rotation.sin / self.scale.x;
        let i10 = -(self.rotation.sin / self.scale.y);
        let i11 = self.rotation.cos / self.scale.y;
        &&& representable(i00)
        &&& representable(i01)
        &&& representable(self.rotation.sin / self.scale.y)
        &&& representable(i11)
        &&& representable(i00 * self.offset.x)
        &&& representable(i01 * self.offset.y)
        &&& representable(i00 * self.offset.x + i01 * self.offset.y)
        &&& representable(self.position.x - (i00 * self.offset.x + i01 * self.offset.y))
        &&& representable(i10 * self.offset.x)
        &&& representable(i11 * self.offset.y)
        &&& representable(i10 * self.offset.x + i11 * self.offset.y)
        &&& representable(self.position.y - (i10 * self.offset.x + i11 * self.offset.y))
    }

    /// Every value on the way to the view matrix, to the local matrix of
    /// `object` and to their product is representable.
    pub open spec fn apply_matrix_fits(self, object: RealTransform) -> bool {
        &&& object.matrix_fits()
        &&& self.matrix_fits()
        &&& self.matrix().mul_fits(object.matrix())
    }

    /// Where the world point `p` is shown on the screen.
    pub open spec fn world_to_screen_coords(self, p: Real2) -> Real2 {
        self.matrix().transform_point2(p)
    }

    /// Every value on the way to `world_to_screen_coords` is representable.
    pub open spec fn world_to_screen_fits(self, p: Real2) -> bool {
        self.matrix_fits() && self.matrix().transform_point2_fits(p)
    }

    /// The world point that is shown at the screen point `p`.
    pub open spec fn screen_to_world_coords(self, p: Real2) -> Real2 {
        self.inverse_matrix().transform_point2(p)
    }

    /// Every value on the way to `screen_to_world_coords` is representable.
    pub open spec fn screen_to_world_fits(self, p: Real2) -> bool {
        self.inverse_matrix_fits() && self.inverse_matrix().transform_point2_fits(p)
    }

    /// The camera after `position -= delta`.
    pub open spec fn move_by_world_coords(self, delta: Real2) -> RealCamera {
        RealCamera {
            position: Real2 { x: self.position.x - delta.x, y: self.position.y - delta.y },
            ..self
        }
    }

    /// Both new coordinates are representable.
    pub open spec fn move_by_world_fits(self, delta: Real2) -> bool {
        &&& representable(self.position.x - delta.x)
        &&& representable(self.position.y - delta.y)
    }

    /// The camera after `position -= delta / scale`, component by component.
    pub open spec fn move_by_screen_coords(self, delta: Real2) -> RealCamera {
        RealCamera {
            position: Real2 {
                x: self.position.x - delta.x / self.scale.x,
                y: self.position.y - delta.y / self.scale.y,
            },
            ..self
        }
    }

    /// Both quotients and both new coordinates are representable.
    pub open spec fn move_by_screen_fits(self, delta: Real2) -> bool {
        &&& representable(delta.x / self.scale.x)
        &&& representable(delta.y / self.scale.y)
        &&& representable(self.position.x - delta.x / self.scale.x)
        &&& representable(self.position.y - delta.y / self.scale.y)
    }

    /// The camera after `scale *= factor`, component by component.
    pub open spec fn zoom(self, factor: Real2) -> RealCamera {
        RealCamera {
            scale: Real2 { x: self.scale.x * factor.x, y: self.scale.y * factor.y },
            ..self
        }
    }

    /// Both new zoom components are representable.
    pub open spec fn zoom_fits(self, factor: Real2) -> bool {
        &&& representable(self.scale.x * factor.x)
        &&& representable(self.scale.y * factor.y)
    }

    /// The camera after a zoom by `factor` that keeps in place what is shown
    /// at the screen point `point`. With `w` the world point shown there
    /// before, each coordinate of the position becomes
    /// `w - (w - position) / factor`, and the zoom is multiplied by `factor`.
    pub open spec fn zoom_at_screen_coords(self, point: Real2, factor: Real2) -> RealCamera {
        let w = self.screen_to_world_coords(point);
        RealCamera {
            position: Real2 {
                x: w.x - (w.x - self.position.x) / factor.x,
                y: w.y - (w.y - self.position.y) / factor.y,
            },
            scale: Real2 { x: self.scale.x * factor.x, y: self.scale.y * factor.y },
            ..self
        }
    }

    /// Every value on the way to `zoom_at_screen_coords` is representable.
    pub open spec fn zoom_at_screen_fits(self, point: Real2, factor: Real2) -> bool {
        let w = self.screen_to_world_coords(point);
        &&& self.screen_to_world_fits(point)
        &&& representable(w.x - self.position.x)
        &&& representable((w.x - self.position.x) / factor.x)
        &&& representable(w.x - (w.x - self.position.x) / factor.x)
        &&& representable(w.y - self.position.y)
        &&& representable((w.y - self.position.y) / factor.y)
        &&& representable(w.y - (w.y - self.position.y) / factor.y)
        &&& self.zoom_fits(factor)
    }

    /// The centre of a viewport of the given size.
    pub open spec fn viewport_center(viewport: Real2) -> Real2 {
        Real2 { x: viewport.x / 2real, y: viewport.y / 2real }
    }

    /// The camera after a zoom by `factor` that keeps in place what is shown
    /// at the centre of the viewport.
    pub open spec fn zoom_center(self, viewport: Real2, factor: Real2) -> RealCamera {
        self.zoom_at_screen_coords(Self::viewport_center(viewport), factor)
    }

    /// The centre and every value on the way to `zoom_center` are
    /// representable.
    pub open spec fn zoom_center_fits(self, viewport: Real2, factor: Real2) -> bool {
        &&& representable(viewport.x / 2real)
        &&& representable(viewport.y / 2real)
        &&& self.zoom_at_screen_fits(Self::viewport_center(viewport), factor)
    }

    /// The camera turned further by `delta`.
    pub open spec fn rotate(self, delta: RealRotation) -> RealCamera {
        RealCamera { rotation: self.rotation.compose(delta), ..self }
    }
}

impl Camera {
    /// The state in real numbers.
    pub open spec fn view(&self) -> RealCamera {
        RealCamera {
            offset: self.offset@,
            rotation: self.rotation@,
            scale: self.scale@,
            position: self.position@,
        }
    }

    /// A camera with the given anchor, rotation, zoom and position.
    pub fn new(offset: Point2, rotation: Rotation, scale: Vector2, position: Point2) -> (c: Camera)
        ensures
            c == (Camera { offset, rotation, scale, position }),
            c@.anchored(),
    {
        proof {
            lemma_pose_origin(rotation@, scale@, position@, offset@);
        }
        Camera { offset, rotation, scale, position }
    }

    /// The view matrix, from world to screen.
    ///
    /// Fails with `Overflow` exactly when a value on the way is not
    /// representable.
    pub fn to_matrix(&self) -> (r: Result<Matrix4, CameraError>)
        ensures
            match r {
                Ok(m) => {
                    &&& self@.matrix_fits()
                    &&& m@ == self@.matrix()
                    &&& m@.transform_point2(self@.position) == self@.offset
                },
                Err(e) => e == CameraError::Overflow && !self@.matrix_fits(),
            },
    {
        proof {
            lemma_pose_origin(self@.rotation, self@.scale, self@.position, self@.offset);
        }
        build_pose_matrix(&self.rotation, &self.scale, &self.position, &self.offset)
    }

    /// The inverse of the view matrix, from screen to world.
    ///
    /// Fails with `DegenerateScale` exactly when a component of the zoom is
    /// zero, and otherwise with `Overflow` exactly when a value on the way is
    /// not representable.
    pub fn to_inverse_matrix(&self) -> (r: Result<Matrix4, CameraError>)
        ensures
            match r {
                Ok(m) => {
                    &&& self@.scale.no_zero()
                    &&& self@.inverse_matrix_fits()
                    &&& m@ == self@.inverse_matrix()
                    &&& self@.matrix().mul(m@) == RealMatrix4::identity()
                    &&& m@.mul(self@.matrix()) == RealMatrix4::identity()
                },
                Err(CameraError::DegenerateScale) => !self@.scale.no_zero(),
                Err(CameraError::Overflow) => self@.scale.no_zero()
                    && !self@.inverse_matrix_fits(),
                Err(CameraError::InvalidFactor) => false,
            },
    {
        if self.scale.has_zero() {
            return Err(CameraError::DegenerateScale);
        }
        proof {
            use_type_invariant(&self.rotation);
            lemma_inverse_matrix(self@);
        }
        let cos = self.rotation.cos();
        let sin = self.rotation.sin();
        let i00 = quotient(&cos, &self.scale.x)?;
        let i01 = quotient(&sin, &self.scale.x)?;
        let i10 = quotient(&sin, &self.scale.y)?.neg();
        let i11 = quotient(&cos, &self.scale.y)?;
        let i03 = difference(
            &self.position.x,
            &sum(&product(&i00, &self.offset.x)?, &product(&i01, &self.offset.y)?)?,
        )?;
        let i13 = difference(
            &self.position.y,
            &sum(&product(&i10, &self.offset.x)?, &product(&i11, &self.offset.y)?)?,
        )?;
        Ok(Matrix4::affine(i00, i01, i10, i11, i03, i13))
    }

    /// The matrix under which `object` is drawn: the view matrix times the
    /// object's local matrix.
    ///
    /// Fails with `DegenerateScale` exactly when a component of the object's
    /// scale is zero, and otherwise with `Overflow` exactly when a value on
    /// the way is not representable.
    pub fn apply_matrix(&self, object: Transform) -> (r: Result<Matrix4, CameraError>)
        ensures
            match r {
                Ok(m) => object@.scale.no_zero() && self@.apply_matrix_fits(object@) && m@
                    == self@.matrix().mul(object@.matrix()),
                Err(CameraError::DegenerateScale) => !object@.scale.no_zero(),
                Err(CameraError::Overflow) => object@.scale.no_zero() && !self@.apply_matrix_fits(
                    object@,
                ),
                Err(CameraError::InvalidFactor) => false,
            },
    {
        let local = object.to_matrix()?;
        let view = self.to_matrix()?;
        view.mul_mat4(&local)
    }

    /// Where the world point `point` is shown on the screen: the view matrix
    /// applied to it.
    ///
    /// Fails with `Overflow` exactly when a value on the way is not
    /// representable.
    pub fn world_to_screen_coords(&self, point: Point2) -> (r: Result<Point2, CameraError>)
        ensures
            match r {
                Ok(p) => {
                    &&& self@.world_to_screen_fits(point@)
                    &&& p@ == self@.world_to_screen_coords(point@)
                    &&& self@.scale.no_zero() ==> self@.screen_to_world_coords(p@) == point@
                },
                Err(e) => e == CameraError::Overflow && !self@.world_to_screen_fits(point@),
            },
    {
        proof {
            use_type_invariant(&self.rotation);
            if self@.scale.no_zero() {
                lemma_round_trip(self@, point@);
            }
        }
        self.to_matrix()?.transform_point2(&point)
    }

    /// The world point that is shown at the screen point `point`: the
    /// inverse of the view matrix applied to it.
    ///
    /// Fails with `DegenerateScale` exactly when a component of the zoom is
    /// zero, and otherwise with `Overflow` exactly when a value on the way is
    /// not representable.
    pub fn screen_to_world_coords(&self, point: Point2) -> (r: Result<Point2, CameraError>)
        ensures
            match r {
                Ok(p) => {
                    &&& self@.scale.no_zero()
                    &&& self@.screen_to_world_fits(point@)
                    &&& p@ == self@.screen_to_world_coords(point@)
                    &&& self@.world_to_screen_coords(p@) == point@
                },
                Err(CameraError::DegenerateScale) => !self@.scale.no_zero(),
                Err(CameraError::Overflow) => self@.scale.no_zero() && !self@.screen_to_world_fits(
                    point@,
                ),
                Err(CameraError::InvalidFactor) => false,
            },
    {
        proof {
            use_type_invariant(&self.rotation);
            if self@.scale.no_zero() {
                lemma_round_trip(self@, point@);
            }
        }
        self.to_inverse_matrix()?.transform_point2(&point)
    }

    /// Shows the world point `point` at the anchor.
    pub fn set_position(&mut self, point: Point2)
        ensures
            *final(self) == (Camera { position: point, ..*old(self) }),
            final(self)@.anchored(),
    {
        self.position = point;
        proof {
            lemma_pose_origin(self.rotation@, self.scale@, self.position@, self.offset@);
        }
    }

    /// Moves the anchor to the screen point `point`, in pixels. The zoom
    /// plays no part in it.
    pub fn set_offset(&mut self, point: Point2)
        ensures
            *final(self) == (Camera { offset: point, ..*old(self) }),
            final(self)@.anchored(),
    {
        self.offset = point;
        proof {
            lemma_pose_origin(self.rotation@, self.scale@, self.position@, self.offset@);
        }
    }

    /// Pans by a displacement in world units: `position -= delta`.
    ///
    /// Fails with `Overflow`, and changes nothing, exactly when a new
    /// coordinate is not representable.
    pub fn move_by_world_coords(&mut self, delta: Point2) -> (r: Result<(), CameraError>)
        ensures
            match r {
                Ok(_) => {
                    &&& old(self)@.move_by_world_fits(delta@)
                    &&& final(self)@ == old(self)@.move_by_world_coords(delta@)
                    &&& final(self)@.anchored()
                },
                Err(e) => e == CameraError::Overflow && !old(self)@.move_by_world_fits(delta@)
                    && *final(self) == *old(self),
            },
    {
        let x = difference(&self.position.x, &delta.x)?;
        let y = difference(&self.position.y, &delta.y)?;
        self.position = Point2 { x, y };
        proof {
            lemma_pose_origin(self.rotation@, self.scale@, self.position@, self.offset@);
        }
        Ok(())
    }

    /// Pans by a displacement in screen pixels: `position -= delta / scale`,
    /// component by component. The rotation is left out on purpose, so the
    /// drag follows the axes of the screen.
    ///
    /// Fails, and changes nothing, with `DegenerateScale` exactly when a
    /// component of the zoom is zero, and otherwise with `Overflow` exactly
    /// when a value on the way is not representable.
    pub fn move_by_screen_coords(&mut self, delta: Point2) -> (r: Result<(), CameraError>)
        ensures
            match r {
                Ok(_) => {
                    &&& old(self)@.scale.no_zero()
                    &&& old(self)@.move_by_screen_fits(delta@)
                    &&& final(self)@ == old(self)@.move_by_screen_coords(delta@)
                    &&& final(self)@.anchored()
                },
                Err(e) => *final(self) == *old(self) && match e {
                    CameraError::DegenerateScale => !old(self)@.scale.no_zero(),
                    CameraError::Overflow => old(self)@.scale.no_zero()
                        && !old(self)@.move_by_screen_fits(delta@),
                    CameraError::InvalidFactor => false,
                },
            },
    {
        if self.scale.has_zero() {
            return Err(CameraError::DegenerateScale);
        }
        let dx = quotient(&delta.x, &self.scale.x)?;
        let dy = quotient(&delta.y, &self.scale.y)?;
        let x = difference(&self.position.x, &dx)?;
        let y = difference(&self.position.y, &dy)?;
        self.position = Point2 { x, y };
        proof {
            lemma_pose_origin(self.rotation@, self.scale@, self.position@, self.offset@);
        }
        Ok(())
    }

    /// The zoom, by axis.
    pub fn get_zoom(&self) -> (z: Vector2)
        ensures
            z == self.scale,
    {
        self.scale
    }

    /// Sets the zoom.
    ///
    /// Fails with `InvalidFactor`, and changes nothing, exactly when a
    /// component of `scale` is zero.
    pub fn set_zoom(&mut self, scale: Vector2) -> (r: Result<(), CameraError>)
        ensures
            match r {
                Ok(_) => {
                    &&& scale@.no_zero()
                    &&& *final(self) == (Camera { scale, ..*old(self) })
                    &&& final(self)@.anchored()
                },
                Err(e) => e == CameraError::InvalidFactor && !scale@.no_zero() && *final(self)
                    == *old(self),
            },
    {
        if scale.has_zero() {
            return Err(CameraError::InvalidFactor);
        }
        self.scale = scale;
        proof {
            lemma_pose_origin(self.rotation@, self.scale@, self.position@, self.offset@);
        }
        Ok(())
    }

    /// Multiplies the zoom by `factor`, component by component. Anchor and
    /// position stay, so what is shown elsewhere than at the anchor moves.
    ///
    /// Fails, and changes nothing, with `InvalidFactor` exactly when a
    /// component of `factor` is zero, and otherwise with `Overflow` exactly
    /// when a new zoom component is not representable.
    pub fn zoom(&mut self, factor: Vector2) -> (r: Result<(), CameraError>)
        ensures
            match r {
                Ok(_) => {
                    &&& factor@.no_zero()
                    &&& old(self)@.zoom_fits(factor@)
                    &&& final(self)@ == old(self)@.zoom(factor@)
                    &&& final(self)@.anchored()
                },
                Err(e) => *final(self) == *old(self) && match e {
                    CameraError::InvalidFactor => !factor@.no_zero(),
                    CameraError::Overflow => factor@.no_zero() && !old(self)@.zoom_fits(factor@),
                    CameraError::DegenerateScale => false,
                },
            },
    {
        if factor.has_zero() {
            return Err(CameraError::InvalidFactor);
        }
        let x = product(&self.scale.x, &factor.x)?;
        let y = product(&self.scale.y, &factor.y)?;
        self.scale = Vector2 { x, y };
        proof {
            lemma_pose_origin(self.rotation@, self.scale@, self.position@, self.offset@);
        }
        Ok(())
    }

    /// Zooms by `factor` and keeps in place what is shown at the centre of a
    /// viewport of the size `viewport`.
    ///
    /// Fails, and changes nothing, with `InvalidFactor` exactly when a
    /// component of `factor` is zero, otherwise with `DegenerateScale`
    /// exactly when a component of the zoom is zero, and otherwise with
    /// `Overflow` exactly when a value on the way is not representable.
    pub fn zoom_center(&mut self, viewport: Vector2, factor: Vector2) -> (r: Result<
        (),
        CameraError,
    >)
        ensures
            match r {
                Ok(_) => {
                    &&& factor@.no_zero()
                    &&& old(self)@.scale.no_zero()
                    &&& old(self)@.zoom_center_fits(viewport@, factor@)
                    &&& final(self)@ == old(self)@.zoom_center(viewport@, factor@)
                    &&& final(self)@.anchored()
                    &&& final(self)@.world_to_screen_coords(
                        old(self)@.screen_to_world_coords(RealCamera::viewport_center(viewport@)),
                    ) == RealCamera::viewport_center(viewport@)
                },
                Err(e) => *final(self) == *old(self) && match e {
                    CameraError::InvalidFactor => !factor@.no_zero(),
                    CameraError::DegenerateScale => factor@.no_zero()
                        && !old(self)@.scale.no_zero(),
                    CameraError::Overflow => factor@.no_zero() && old(self)@.scale.no_zero()
                        && !old(self)@.zoom_center_fits(viewport@, factor@),
                },
            },
    {
        if factor.has_zero() {
            return Err(CameraError::InvalidFactor);
        }
        if self.scale.has_zero() {
            return Err(CameraError::DegenerateScale);
        }
        let two = Rational::from_i32(2);
        let center = Point2 {
            x: quotient(&viewport.x, &two)?,
            y: quotient(&viewport.y, &two)?,
        };
        self.zoom_at_screen_coords(center, factor)
    }

    /// Zooms by `factor` and keeps in place what is shown at the screen
    /// point `point`: the world point found there before the zoom is shown
    /// there after it.
    ///
    /// Fails, and changes nothing, with `InvalidFactor` exactly when a
    /// component of `factor` is zero, otherwise with `DegenerateScale`
    /// exactly when a component of the zoom is zero, and otherwise with
    /// `Overflow` exactly when a value on the way is not representable.
    pub fn zoom_at_screen_coords(&mut self, point: Point2, factor: Vector2) -> (r: Result<
        (),
        CameraError,
    >)
        ensures
            match r {
                Ok(_) => {
                    &&& factor@.no_zero()
                    &&& old(self)@.scale.no_zero()
                    &&& old(self)@.zoom_at_screen_fits(point@, factor@)
                    &&& final(self)@ == old(self)@.zoom_at_screen_coords(point@, factor@)
                    &&& final(self)@.anchored()
                    &&& final(self)@.world_to_screen_coords(
                        old(self)@.screen_to_world_coords(point@),
                    ) == point@
                },
                Err(e) => *final(self) == *old(self) && match e {
                    CameraError::InvalidFactor => !factor@.no_zero(),
                    CameraError::DegenerateScale => factor@.no_zero()
                        && !old(self)@.scale.no_zero(),
                    CameraError::Overflow => factor@.no_zero() && old(self)@.scale.no_zero()
                        && !old(self)@.zoom_at_screen_fits(point@, factor@),
                },
            },
    {
        if factor.has_zero() {
            return Err(CameraError::InvalidFactor);
        }
        let world_center = self.screen_to_world_coords(point)?;
        let x = difference(
            &world_center.x,
            &quotient(&difference(&world_center.x, &self.position.x)?, &factor.x)?,
        )?;
        let y = difference(
            &world_center.y,
            &quotient(&difference(&world_center.y, &self.position.y)?, &factor.y)?,
        )?;
        let zoom_x = product(&self.scale.x, &factor.x)?;
        let zoom_y = product(&self.scale.y, &factor.y)?;
        proof {
            use_type_invariant(&self.rotation);
            lemma_zoom_keeps_point(self@, point@, factor@);
        }
        self.position = Point2 { x, y };
        self.scale = Vector2 { x: zoom_x, y: zoom_y };
        proof {
            lemma_pose_origin(self.rotation@, self.scale@, self.position@, self.offset@);
        }
        Ok(())
    }

    /// Turns the camera further by `delta`: the angles add up.
    ///
    /// Fails with `Overflow`, and changes nothing, exactly when a value on
    /// the way to the composed rotation is not representable.
    pub fn rotate(&mut self, delta: Rotation) -> (r: Result<(), CameraError>)
        ensures
            match r {
                Ok(_) => {
                    &&& old(self)@.rotation.compose_fits(delta@)
                    &&& final(self)@ == old(self)@.rotate(delta@)
                    &&& final(self)@.anchored()
                },
                Err(e) => e == CameraError::Overflow && !old(self)@.rotation.compose_fits(delta@)
                    && *final(self) == *old(self),
            },
    {
        match self.rotation.compose(&delta) {
            Some(rotation) => {
                self.rotation = rotation;
                proof {
                    lemma_pose_origin(self.rotation@, self.scale@, self.position@, self.offset@);
                }
                Ok(())
            },
            None => Err(CameraError::Overflow),
        }
    }

    /// Sets the rotation.
    pub fn set_rotation(&mut self, rotation: Rotation)
        ensures
            *final(self) == (Camera { rotation, ..*old(self) }),
            final(self)@.anchored(),
    {
        self.rotation = rotation;
        proof {
            lemma_pose_origin(self.rotation@, self.scale@, self.position@, self.offset@);
        }
    }
}

impl Default for Camera {
    /// The camera that shows the world as it is.
    fn default() -> (c: Camera)
        ensures
            c@ == RealCamera::identity(),
            c@.anchored(),
    {
        proof {
            let i = RealCamera::identity();
            lemma_pose_origin(i.rotation, i.scale, i.position, i.offset);
        }
        Camera {
            offset: Point2::from_i32(0, 0),
            rotation: Rotation::identity(),
            scale: Vector2::from_i32(1, 1),
            position: Point2::from_i32(0, 0),
        }
    }
}

} // verus!
