use camera2d::rational::LIMIT;
use camera2d::{CameraError, Matrix4, Point2, Rational, Rotation, Transform, Vector2};

fn q(n: i64, d: i64) -> Rational {
    Rational::new(n, d).unwrap()
}

fn z(n: i32) -> Rational {
    Rational::from_i32(n)
}

fn affine(a: i32, b: i32, c: i32, d: i32, tx: i32, ty: i32) -> Matrix4 {
    Matrix4::affine(z(a), z(b), z(c), z(d), z(tx), z(ty))
}

fn quarter_turn() -> Rotation {
    Rotation::from_half_tangent(&z(1)).unwrap()
}

#[test]
fn default_transform_has_identity_fields() {
    let t = Transform::default();
    assert_eq!(t.dest, Point2::from_i32(0, 0));
    assert_eq!(t.rotation, Rotation::identity());
    assert_eq!(t.scale, Vector2::from_i32(1, 1));
    assert_eq!(t.offset, Point2::from_i32(0, 0));
}

#[test]
fn default_transform_gives_the_identity_matrix() {
    assert_eq!(Transform::default().to_matrix(), Ok(Matrix4::identity()));
}

#[test]
fn translation_maps_the_local_origin_to_dest() {
    let t = Transform {
        dest: Point2::from_i32(100, 100),
        rotation: Rotation::identity(),
        scale: Vector2::from_i32(1, 1),
        offset: Point2::from_i32(0, 0),
    };
    let m = t.to_matrix().unwrap();
    assert_eq!(m, affine(1, 0, 0, 1, 100, 100));
    assert_eq!(m.transform_point2(&Point2::from_i32(0, 0)), Ok(Point2::from_i32(100, 100)));
}

#[test]
fn pivot_is_divided_by_the_scale() {
    let t = Transform {
        dest: Point2::from_i32(100, 50),
        rotation: Rotation::identity(),
        scale: Vector2::from_i32(2, 4),
        offset: Point2::from_i32(10, 20),
    };
    let m = t.to_matrix().unwrap();
    assert_eq!(m, affine(2, 0, 0, 4, 90, 30));
    // the de-scaled pivot (5, 5) goes to dest
    assert_eq!(m.transform_point2(&Point2::from_i32(5, 5)), Ok(Point2::from_i32(100, 50)));
}

#[test]
fn rotation_turns_counter_clockwise_about_the_pivot() {
    let t = Transform {
        dest: Point2::from_i32(10, 20),
        rotation: quarter_turn(),
        scale: Vector2::from_i32(2, 3),
        offset: Point2::from_i32(4, 9),
    };
    let m = t.to_matrix().unwrap();
    assert_eq!(m, affine(0, -3, 2, 0, 19, 16));
    assert_eq!(m.transform_point2(&Point2::from_i32(2, 3)), Ok(Point2::from_i32(10, 20)));
    // one unit along the local x axis from the pivot: two units up the parent's y axis
    assert_eq!(m.transform_point2(&Point2::from_i32(3, 3)), Ok(Point2::from_i32(10, 22)));
}

#[test]
fn fractional_scale_and_pivot_stay_exact() {
    let t = Transform {
        dest: Point2 { x: q(1, 3), y: z(0) },
        rotation: Rotation::from_half_tangent(&q(1, 2)).unwrap(),
        scale: Vector2 { x: q(5, 2), y: z(5) },
        offset: Point2 { x: z(5), y: z(10) },
    };
    // cos = 3/5, sin = 4/5, de-scaled pivot = (2, 2)
    let m = t.to_matrix().unwrap();
    let expected = Matrix4::affine(q(3, 2), z(-4), z(2), z(3), q(16, 3), z(-10));
    assert_eq!(m, expected);
    assert_eq!(m.transform_point2(&Point2::from_i32(2, 2)), Ok(t.dest));
}

#[test]
fn zero_scale_is_degenerate() {
    let mut t = Transform::default();
    t.scale = Vector2::from_i32(0, 1);
    assert_eq!(t.to_matrix(), Err(CameraError::DegenerateScale));
    t.scale = Vector2::from_i32(1, 0);
    assert_eq!(t.to_matrix(), Err(CameraError::DegenerateScale));
    assert_eq!(t.apply_matrix(&Matrix4::identity()), Err(CameraError::DegenerateScale));
}

#[test]
fn matrix_out_of_range_is_an_overflow() {
    let mut t = Transform::default();
    t.scale = Vector2 { x: q(LIMIT, 1), y: z(1) };
    t.offset = Point2 { x: z(1), y: z(0) };
    // the de-scaled pivot 1 / LIMIT fits; the pivot moved to dest = 1 does not need more
    assert_eq!(t.to_matrix(), Ok(Matrix4::affine(q(LIMIT, 1), z(0), z(0), z(1), z(-1), z(0))));
    t.dest = Point2 { x: q(-LIMIT, 1), y: z(0) };
    assert_eq!(t.to_matrix(), Err(CameraError::Overflow));
    t.dest = Point2::from_i32(0, 0);
    t.offset = Point2 { x: q(1, 2), y: z(0) };
    assert_eq!(t.to_matrix(), Err(CameraError::Overflow));
}

#[test]
fn apply_matrix_puts_the_parent_on_the_left() {
    let t = Transform {
        dest: Point2::from_i32(10, 20),
        rotation: quarter_turn(),
        scale: Vector2::from_i32(2, 3),
        offset: Point2::from_i32(4, 9),
    };
    let parent = affine(2, 0, 0, 2, 5, 7);
    // parent * local: the local matrix (0, -3, 2, 0, 19, 16) doubled, then moved by (5, 7)
    assert_eq!(t.apply_matrix(&parent), Ok(affine(0, -6, 4, 0, 43, 39)));
    assert_eq!(t.apply_matrix(&Matrix4::identity()), t.to_matrix());
    assert_eq!(t.apply_matrix(&parent), parent.mul_mat4(&t.to_matrix().unwrap()));
}

#[test]
fn transform_apply_matrix_out_of_range_is_an_overflow() {
    let mut t = Transform::default();
    t.dest = Point2 { x: q(LIMIT, 1), y: z(0) };
    assert!(t.to_matrix().is_ok());
    let parent = affine(2, 0, 0, 1, 0, 0);
    assert_eq!(t.apply_matrix(&parent), Err(CameraError::Overflow));
}
