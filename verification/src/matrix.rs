//! 4x4 homogeneous matrices with exact rational entries.

use crate::error::CameraError;
use crate::model::RealMatrix4;
use crate::rational::{representable, Rational};
use crate::vector::{Point2, Vector4};
use vstd::prelude::*;

verus! {

/// A 4x4 matrix, by rows. It acts on column vectors: the image of `v` is
/// `M * v`.
#[derive(Clone, Copy, Debug, PartialEq, Eq, Structural)]
pub struct Matrix4 {
    pub row0: Vector4,
    pub row1: Vector4,
    pub row2: Vector4,
    pub row3: Vector4,
}

impl Vector4 {
    /// The row vector `self` times the matrix whose columns are the rows of
    /// `columns`.
    fn mul_columns(&self, columns: &Matrix4) -> (r: Option<Vector4>)
        ensures
            r is Some <==> self@.mul_matrix_fits(columns@.transpose()),
            r matches Some(v) ==> v@ == self@.mul_matrix(columns@.transpose()),
    {
        let x = self.dot(&columns.row0);
        let y = self.dot(&columns.row1);
        let z = self.dot(&columns.row2);
        let w = self.dot(&columns.row3);
        match (x, y, z, w) {
            (Some(x), Some(y), Some(z), Some(w)) => Some(Vector4 { x, y, z, w }),
            _ => None,
        }
    }
}

impl Matrix4 {
    /// The entries as real numbers.
    pub open spec fn view(&self) -> RealMatrix4 {
        RealMatrix4 { row0: self.row0@, row1: self.row1@, row2: self.row2@, row3: self.row3@ }
    }

    /// The identity matrix.
    pub fn identity() -> (m: Matrix4)
        ensures
            m@ == RealMatrix4::identity(),
    {
        let o = Rational::from_i32(0);
        let i = Rational::from_i32(1);
        Matrix4 {
            row0: Vector4 { x: i, y: o, z: o, w: o },
            row1: Vector4 { x: o, y: i, z: o, w: o },
            row2: Vector4 { x: o, y: o, z: i, w: o },
            row3: Vector4 { x: o, y: o, z: o, w: i },
        }
    }

    /// The homogeneous form of the plane's affine map with linear part
    /// `[[a, b], [c, d]]` and translation `(tx, ty)`.
    pub fn affine(
        a: Rational,
        b: Rational,
        c: Rational,
        d: Rational,
        tx: Rational,
        ty: Rational,
    ) -> (m: Matrix4)
        ensures
            m@ == RealMatrix4::affine(a@, b@, c@, d@, tx@, ty@),
    {
        let o = Rational::from_i32(0);
        let i = Rational::from_i32(1);
        Matrix4 {
            row0: Vector4 { x: a, y: b, z: o, w: tx },
            row1: Vector4 { x: c, y: d, z: o, w: ty },
            row2: Vector4 { x: o, y: o, z: i, w: o },
            row3: Vector4 { x: o, y: o, z: o, w: i },
        }
    }

    /// Rows and columns exchanged.
    pub fn transpose(&self) -> (m: Matrix4)
        ensures
            m@ == self@.transpose(),
    {
        Matrix4 {
            row0: Vector4 { x: self.row0.x, y: self.row1.x, z: self.row2.x, w: self.row3.x },
            row1: Vector4 { x: self.row0.y, y: self.row1.y, z: self.row2.y, w: self.row3.y },
            row2: Vector4 { x: self.row0.z, y: self.row1.z, z: self.row2.z, w: self.row3.z },
            row3: Vector4 { x: self.row0.w, y: self.row1.w, z: self.row2.w, w: self.row3.w },
        }
    }

    /// The matrix product `self * rhs`, which applies `rhs` first. Fails
    /// with `Overflow` exactly when a product or a partial sum of one of the
    /// sixteen scalar products is not representable.
    pub fn mul_mat4(&self, rhs: &Matrix4) -> (r: Result<Matrix4, CameraError>)
        ensures
            match r {
                Ok(m) => self@.mul_fits(rhs@) && m@ == self@.mul(rhs@),
                Err(e) => e == CameraError::Overflow && !self@.mul_fits(rhs@),
            },
    {
        let columns = rhs.transpose();
        assert(columns@.transpose() == rhs@);
        let row0 = self.row0.mul_columns(&columns);
        let row1 = self.row1.mul_columns(&columns);
        let row2 = self.row2.mul_columns(&columns);
        let row3 = self.row3.mul_columns(&columns);
        match (row0, row1, row2, row3) {
            (Some(row0), Some(row1), Some(row2), Some(row3)) => Ok(
                Matrix4 { row0, row1, row2, row3 },
            ),
            _ => Err(CameraError::Overflow),
        }
    }

    /// The image of the plane's point `p`, taken as `(p.x, p.y, 0, 1)`.
    /// Fails with `Overflow` exactly when a product or a partial sum is not
    /// representable.
    pub fn transform_point2(&self, p: &Point2) -> (r: Result<Point2, CameraError>)
        ensures
            match r {
                Ok(q) => self@.transform_point2_fits(p@) && q@ == self@.transform_point2(p@),
                Err(e) => e == CameraError::Overflow && !self@.transform_point2_fits(p@),
            },
    {
        let x = Self::affine_combination(&self.row0, p);
        let y = Self::affine_combination(&self.row1, p);
        match (x, y) {
            (Some(x), Some(y)) => Ok(Point2 { x, y }),
            _ => Err(CameraError::Overflow),
        }
    }

    /// `row.x * p.x + row.y * p.y + row.w`, from left to right.
    fn affine_combination(row: &Vector4, p: &Point2) -> (r: Option<Rational>)
        ensures
            r is Some <==> {
                &&& representable(row@.x * p@.x)
                &&& representable(row@.y * p@.y)
                &&& representable(row@.x * p@.x + row@.y * p@.y)
                &&& representable(row@.x * p@.x + row@.y * p@.y + row@.w)
            },
            r matches Some(v) ==> v@ == row@.x * p@.x + row@.y * p@.y + row@.w,
    {
        match (row.x.checked_mul(&p.x), row.y.checked_mul(&p.y)) {
            (Some(a), Some(b)) => match a.checked_add(&b) {
                Some(s) => s.checked_add(&row.w),
                None => None,
            },
            _ => None,
        }
    }
}

} // verus!
