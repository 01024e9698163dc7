//! The mathematical model: pairs, quadruples and 4x4 matrices of real
//! numbers. Contracts and laws of this crate are stated over these.

use crate::rational::representable;
use vstd::prelude::*;

verus! {

/// A point or vector of the plane.
pub struct Real2 {
    pub x: real,
    pub y: real,
}

/// A row or column of a 4x4 matrix.
pub struct Real4 {
    pub x: real,
    pub y: real,
    pub z: real,
    pub w: real,
}

/// A 4x4 matrix, by rows.
pub struct RealMatrix4 {
    pub row0: Real4,
    pub row1: Real4,
    pub row2: Real4,
    pub row3: Real4,
}

/// A rotation of the plane, held as the cosine and the sine of its angle.
pub struct RealRotation {
    pub cos: real,
    pub sin: real,
}

/// The local pose of an object: where its pivot goes, how it is turned and
/// scaled, and the pivot itself in the object's own unscaled units.
pub struct RealTransform {
    pub dest: Real2,
    pub rotation: RealRotation,
    pub scale: Real2,
    pub offset: Real2,
}

/// The state of a camera: the screen point `offset` (the anchor) shows the
/// world point `position`, turned by `rotation` and magnified by `scale`.
pub struct RealCamera {
    pub offset: Real2,
    pub rotation: RealRotation,
    pub scale: Real2,
    pub position: Real2,
}

impl Real2 {
    /// Both coordinates are different from zero.
    pub open spec fn no_zero(self) -> bool {
        self.x != 0real && self.y != 0real
    }
}

impl RealRotation {
    /// Cosine and sine lie on the unit circle.
    pub open spec fn is_unit(self) -> bool {
        self.cos * self.cos + self.sin * self.sin == 1real
    }

    /// The rotation by the angle zero.
    pub open spec fn identity() -> RealRotation {
        RealRotation { cos: 1real, sin: 0real }
    }

    /// The rotation by the sum of the two angles.
    pub open spec fn compose(self, other: RealRotation) -> RealRotation {
        RealRotation {
            cos: self.cos * other.cos - self.sin * other.sin,
            sin: self.sin * other.cos + self.cos * other.sin,
        }
    }

    /// The four products, the difference and the sum of `compose` are
    /// representable.
    pub open spec fn compose_fits(self, other: RealRotation) -> bool {
        &&& representable(self.cos * other.cos)
        &&& representable(self.sin * other.sin)
        &&& representable(self.sin * other.cos)
        &&& representable(self.cos * other.sin)
        &&& representable(self.cos * other.cos - self.sin * other.sin)
        &&& representable(self.sin * other.cos + self.cos * other.sin)
    }

    /// The rotation by the opposite angle.
    pub open spec fn inverse(self) -> RealRotation {
        RealRotation { cos: self.cos, sin: -self.sin }
    }

    /// The rotation by the angle whose half has the tangent `t`.
    pub open spec fn from_half_tangent(t: real) -> RealRotation {
        RealRotation { cos: (1real - t * t) / (1real + t * t), sin: (t + t) / (1real + t * t) }
    }

    /// Every step of `from_half_tangent` is representable.
    pub open spec fn half_tangent_fits(t: real) -> bool {
        &&& representable(t * t)
        &&& representable(1real + t * t)
        &&& representable(1real - t * t)
        &&& representable(t + t)
        &&& representable((1real - t * t) / (1real + t * t))
        &&& representable((t + t) / (1real + t * t))
    }
}

impl Real4 {
    /// The scalar product of two quadruples.
    pub open spec fn dot(self, other: Real4) -> real {
        self.x * other.x + self.y * other.y + self.z * other.z + self.w * other.w
    }

    /// Every product and every partial sum of the scalar product, taken from
    /// left to right, is representable.
    pub open spec fn dot_fits(self, other: Real4) -> bool {
        &&& representable(self.x * other.x)
        &&& representable(self.y * other.y)
        &&& representable(self.z * other.z)
        &&& representable(self.w * other.w)
        &&& representable(self.x * other.x + self.y * other.y)
        &&& representable(self.x * other.x + self.y * other.y + self.z * other.z)
        &&& representable(self.dot(other))
    }

    /// The row vector `self` times the matrix `m`.
    pub open spec fn mul_matrix(self, m: RealMatrix4) -> Real4 {
        Real4 {
            x: self.dot(m.col0()),
            y: self.dot(m.col1()),
            z: self.dot(m.col2()),
            w: self.dot(m.col3()),
        }
    }

    /// The four scalar products of `mul_matrix` fit.
    pub open spec fn mul_matrix_fits(self, m: RealMatrix4) -> bool {
        &&& self.dot_fits(m.col0())
        &&& self.dot_fits(m.col1())
        &&& self.dot_fits(m.col2())
        &&& self.dot_fits(m.col3())
    }
}

impl RealMatrix4 {
    /// The identity matrix.
    pub open spec fn identity() -> RealMatrix4 {
        RealMatrix4 {
            row0: Real4 { x: 1real, y: 0real, z: 0real, w: 0real },
            row1: Real4 { x: 0real, y: 1real, z: 0real, w: 0real },
            row2: Real4 { x: 0real, y: 0real, z: 1real, w: 0real },
            row3: Real4 { x: 0real, y: 0real, z: 0real, w: 1real },
        }
    }

    /// The homogeneous form of the plane's affine map with linear part
    /// `[[a, b], [c, d]]` and translation `(tx, ty)`: the third coordinate is
    /// left alone.
    pub open spec fn affine(a: real, b: real, c: real, d: real, tx: real, ty: real) -> RealMatrix4 {
        RealMatrix4 {
            row0: Real4 { x: a, y: b, z: 0real, w: tx },
            row1: Real4 { x: c, y: d, z: 0real, w: ty },
            row2: Real4 { x: 0real, y: 0real, z: 1real, w: 0real },
            row3: Real4 { x: 0real, y: 0real, z: 0real, w: 1real },
        }
    }

    /// The translation by `v`.
    pub open spec fn translation(v: Real2) -> RealMatrix4 {
        Self::affine(1real, 0real, 0real, 1real, v.x, v.y)
    }

    /// The scaling by `s.x` along the first axis and `s.y` along the second.
    pub open spec fn scaling(s: Real2) -> RealMatrix4 {
        Self::affine(s.x, 0real, 0real, s.y, 0real, 0real)
    }

    /// The rotation `r` about the origin, counter-clockwise.
    pub open spec fn rotation(r: RealRotation) -> RealMatrix4 {
        Self::affine(r.cos, -r.sin, r.sin, r.cos, 0real, 0real)
    }

    /// The first column.
    pub open spec fn col0(self) -> Real4 {
        Real4 { x: self.row0.x, y: self.row1.x, z: self.row2.x, w: self.row3.x }
    }

    /// The second column.
    pub open spec fn col1(self) -> Real4 {
        Real4 { x: self.row0.y, y: self.row1.y, z: self.row2.y, w: self.row3.y }
    }

    /// The third column.
    pub open spec fn col2(self) -> Real4 {
        Real4 { x: self.row0.z, y: self.row1.z, z: self.row2.z, w: self.row3.z }
    }

    /// The fourth column.
    pub open spec fn col3(self) -> Real4 {
        Real4 { x: self.row0.w, y: self.row1.w, z: self.row2.w, w: self.row3.w }
    }

    /// Rows and columns exchanged.
    pub open spec fn transpose(self) -> RealMatrix4 {
        RealMatrix4 { row0: self.col0(), row1: self.col1(), row2: self.col2(), row3: self.col3() }
    }

    /// The matrix product `self * rhs`: `rhs` is applied first.
    pub open spec fn mul(self, rhs: RealMatrix4) -> RealMatrix4 {
        RealMatrix4 {
            row0: self.row0.mul_matrix(rhs),
            row1: self.row1.mul_matrix(rhs),
            row2: self.row2.mul_matrix(rhs),
            row3: self.row3.mul_matrix(rhs),
        }
    }

    /// All sixteen scalar products of `mul` fit.
    pub open spec fn mul_fits(self, rhs: RealMatrix4) -> bool {
        &&& self.row0.mul_matrix_fits(rhs)
        &&& self.row1.mul_matrix_fits(rhs)
        &&& self.row2.mul_matrix_fits(rhs)
        &&& self.row3.mul_matrix_fits(rhs)
    }

    /// The image of the plane's point `p`, taken as `(p.x, p.y, 0, 1)`: the
    /// first two coordinates of the matrix applied to it.
    pub open spec fn transform_point2(self, p: Real2) -> Real2 {
        Real2 {
            x: self.row0.x * p.x + self.row0.y * p.y + self.row0.w,
            y: self.row1.x * p.x + self.row1.y * p.y + self.row1.w,
        }
    }

    /// Every product and partial sum of `transform_point2`, from left to
    /// right, is representable.
    pub open spec fn transform_point2_fits(self, p: Real2) -> bool {
        &&& representable(self.row0.x * p.x)
        &&& representable(self.row0.y * p.y)
        &&& representable(self.row0.x * p.x + self.row0.y * p.y)
        &&& representable(self.row0.x * p.x + self.row0.y * p.y + self.row0.w)
        &&& representable(self.row1.x * p.x)
        &&& representable(self.row1.y * p.y)
        &&& representable(self.row1.x * p.x + self.row1.y * p.y)
        &&& representable(self.row1.x * p.x + self.row1.y * p.y + self.row1.w)
    }
}

} // verus!
