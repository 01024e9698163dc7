use camera2d::rational::LIMIT;
use camera2d::{CameraError, Matrix4, Point2, Rational, Vector4};

fn q(n: i64, d: i64) -> Rational {
    Rational::new(n, d).unwrap()
}

fn z(n: i32) -> Rational {
    Rational::from_i32(n)
}

fn row(x: i32, y: i32, z_: i32, w: i32) -> Vector4 {
    Vector4 { x: z(x), y: z(y), z: z(z_), w: z(w) }
}

fn affine(a: i32, b: i32, c: i32, d: i32, tx: i32, ty: i32) -> Matrix4 {
    Matrix4::affine(z(a), z(b), z(c), z(d), z(tx), z(ty))
}

fn counting() -> Matrix4 {
    Matrix4 {
        row0: row(1, 2, 3, 4),
        row1: row(5, 6, 7, 8),
        row2: row(9, 10, 11, 12),
        row3: row(13, 14, 15, 16),
    }
}

#[test]
fn identity_has_ones_on_the_diagonal() {
    let m = Matrix4::identity();
    assert_eq!(m.row0, row(1, 0, 0, 0));
    assert_eq!(m.row1, row(0, 1, 0, 0));
    assert_eq!(m.row2, row(0, 0, 1, 0));
    assert_eq!(m.row3, row(0, 0, 0, 1));
}

#[test]
fn affine_fills_the_plane_block() {
    let m = affine(1, 2, 3, 4, 5, 6);
    assert_eq!(m.row0, row(1, 2, 0, 5));
    assert_eq!(m.row1, row(3, 4, 0, 6));
    assert_eq!(m.row2, row(0, 0, 1, 0));
    assert_eq!(m.row3, row(0, 0, 0, 1));
}

#[test]
fn transpose_exchanges_rows_and_columns() {
    let t = counting().transpose();
    assert_eq!(t.row0, row(1, 5, 9, 13));
    assert_eq!(t.row1, row(2, 6, 10, 14));
    assert_eq!(t.row2, row(3, 7, 11, 15));
    assert_eq!(t.row3, row(4, 8, 12, 16));
    assert_eq!(t.transpose(), counting());
}

#[test]
fn dot_of_two_rows() {
    assert_eq!(row(1, 2, 3, 4).dot(&row(5, 6, 7, 8)), Some(z(70)));
    assert_eq!(row(1, 0, 0, 0).dot(&row(0, 1, 0, 0)), Some(z(0)));
    let big = Vector4 { x: q(LIMIT, 1), y: z(0), z: z(0), w: z(0) };
    assert_eq!(big.dot(&row(2, 0, 0, 0)), None);
    assert_eq!(big.dot(&row(1, 1, 0, 0)), Some(q(LIMIT, 1)));
}

#[test]
fn mul_mat4_of_general_matrices() {
    let p = counting().mul_mat4(&counting()).unwrap();
    assert_eq!(p.row0, row(90, 100, 110, 120));
    assert_eq!(p.row1, row(202, 228, 254, 280));
    assert_eq!(p.row2, row(314, 356, 398, 440));
    assert_eq!(p.row3, row(426, 484, 542, 600));
}

#[test]
fn mul_mat4_applies_the_right_factor_first() {
    let a = affine(1, 2, 3, 4, 5, 6);
    let b = affine(7, 8, 9, 10, 11, 12);
    assert_eq!(a.mul_mat4(&b), Ok(affine(25, 28, 57, 64, 40, 87)));
    assert_eq!(b.mul_mat4(&a), Ok(affine(31, 46, 39, 58, 94, 117)));
}

#[test]
fn mul_mat4_is_associative() {
    let a = counting();
    let b = affine(1, 2, 3, 4, 5, 6);
    let c = a.transpose();
    let left = a.mul_mat4(&b).unwrap().mul_mat4(&c);
    let right = a.mul_mat4(&b.mul_mat4(&c).unwrap());
    assert!(left.is_ok());
    assert_eq!(left, right);
}

#[test]
fn mul_mat4_with_the_identity() {
    let m = counting();
    assert_eq!(m.mul_mat4(&Matrix4::identity()), Ok(m));
    assert_eq!(Matrix4::identity().mul_mat4(&m), Ok(m));
}

#[test]
fn mul_mat4_out_of_range_is_an_overflow() {
    let big = Matrix4::affine(q(LIMIT, 1), z(0), z(0), z(1), z(0), z(0));
    let twice = affine(2, 0, 0, 1, 0, 0);
    assert_eq!(big.mul_mat4(&twice), Err(CameraError::Overflow));
    assert_eq!(twice.mul_mat4(&big), Err(CameraError::Overflow));
    assert_eq!(big.mul_mat4(&Matrix4::identity()), Ok(big));
}

#[test]
fn transform_point2_takes_the_point_with_w_one() {
    let m = affine(1, 2, 3, 4, 5, 6);
    let p = Point2::from_i32(7, 8);
    assert_eq!(m.transform_point2(&p), Ok(Point2::from_i32(28, 59)));
    assert_eq!(Matrix4::identity().transform_point2(&p), Ok(p));
}

#[test]
fn transform_point2_leaves_the_third_column_out() {
    let p = Point2::from_i32(1, 1);
    assert_eq!(counting().transform_point2(&p), Ok(Point2::from_i32(7, 19)));
}

#[test]
fn transform_point2_out_of_range_is_an_overflow() {
    let m = affine(1, 0, 0, 1, 1, 0);
    let p = Point2 { x: q(LIMIT, 1), y: z(0) };
    assert_eq!(m.transform_point2(&p), Err(CameraError::Overflow));
    let back = affine(1, 0, 0, 1, -1, 0);
    assert_eq!(back.transform_point2(&p), Ok(Point2 { x: q(LIMIT - 1, 1), y: z(0) }));
}
