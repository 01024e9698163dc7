use camera2d::{Rational, Rotation};

fn q(n: i64, d: i64) -> Rational {
    Rational::new(n, d).unwrap()
}

fn turn(n: i64, d: i64) -> Rotation {
    Rotation::from_half_tangent(&q(n, d)).unwrap()
}

#[test]
fn identity_rotation_has_cosine_one() {
    let r = Rotation::identity();
    assert_eq!(r.cos(), q(1, 1));
    assert_eq!(r.sin(), q(0, 1));
}

#[test]
fn new_takes_points_of_the_unit_circle() {
    let r = Rotation::new(q(3, 5), q(4, 5)).unwrap();
    assert_eq!(r.cos(), q(3, 5));
    assert_eq!(r.sin(), q(4, 5));
    assert_eq!(Rotation::new(q(1, 1), q(0, 1)), Some(Rotation::identity()));
    let half_turn = Rotation::new(q(-1, 1), q(0, 1)).unwrap();
    assert_eq!(half_turn.cos(), q(-1, 1));
    assert_eq!(Rotation::new(q(391, 409), q(-120, 409)), Some(turn(-3, 20)));
}

#[test]
fn new_refuses_other_points() {
    assert_eq!(Rotation::new(q(1, 1), q(1, 1)), None);
    assert_eq!(Rotation::new(q(0, 1), q(0, 1)), None);
    assert_eq!(Rotation::new(q(1, 2), q(1, 2)), None);
    assert_eq!(Rotation::new(q(3, 5), q(4, 7)), None);
    assert_eq!(Rotation::new(q(3, 5), q(3, 5)), None);
    // squares far beyond 64 bits are compared exactly
    let limit = 9223372036854775807;
    assert_eq!(Rotation::new(q(limit, 1), q(0, 1)), None);
    assert_eq!(Rotation::new(q(limit - 1, limit), q(1, limit)), None);
}

#[test]
fn half_tangent_zero_is_the_identity() {
    assert_eq!(turn(0, 1), Rotation::identity());
}

#[test]
fn half_tangent_one_is_the_quarter_turn() {
    let r = turn(1, 1);
    assert_eq!(r.cos(), q(0, 1));
    assert_eq!(r.sin(), q(1, 1));
}

#[test]
fn half_tangent_minus_one_is_the_quarter_turn_back() {
    let r = turn(-1, 1);
    assert_eq!(r.cos(), q(0, 1));
    assert_eq!(r.sin(), q(-1, 1));
}

#[test]
fn half_tangent_gives_a_point_of_the_unit_circle() {
    let r = turn(3, 20);
    assert_eq!(r.cos(), q(391, 409));
    assert_eq!(r.sin(), q(120, 409));
    let s = turn(1, 2);
    assert_eq!(s.cos(), q(3, 5));
    assert_eq!(s.sin(), q(4, 5));
}

#[test]
fn half_tangent_out_of_range_is_none() {
    // 3037000500^2 is just over the limit, 3037000499^2 just under
    assert_eq!(Rotation::from_half_tangent(&q(1, 3037000500)), None);
    assert!(Rotation::from_half_tangent(&q(1, 3037000499)).is_some());
    assert_eq!(Rotation::from_half_tangent(&q(3037000500, 1)), None);
}

#[test]
fn inverse_negates_the_sine() {
    let r = turn(1, 2).inverse();
    assert_eq!(r.cos(), q(3, 5));
    assert_eq!(r.sin(), q(-4, 5));
    assert_eq!(Rotation::identity().inverse(), Rotation::identity());
}

#[test]
fn compose_adds_the_angles() {
    let quarter = turn(1, 1);
    let half = quarter.compose(&quarter).unwrap();
    assert_eq!(half.cos(), q(-1, 1));
    assert_eq!(half.sin(), q(0, 1));
    let full = half.compose(&half).unwrap();
    assert_eq!(full, Rotation::identity());
    // (3/5, 4/5) twice: cos = 9/25 - 16/25, sin = 12/25 + 12/25
    let r = turn(1, 2);
    let twice = r.compose(&r).unwrap();
    assert_eq!(twice.cos(), q(-7, 25));
    assert_eq!(twice.sin(), q(24, 25));
}

#[test]
fn compose_with_the_identity_changes_nothing() {
    let r = turn(3, 20);
    assert_eq!(r.compose(&Rotation::identity()), Some(r));
    assert_eq!(Rotation::identity().compose(&r), Some(r));
}

#[test]
fn compose_with_the_inverse_is_the_identity() {
    let r = turn(3, 20);
    assert_eq!(r.compose(&r.inverse()), Some(Rotation::identity()));
    assert_eq!(r.inverse().compose(&r), Some(Rotation::identity()));
}

#[test]
fn compose_out_of_range_is_none() {
    let r = turn(1, 3037000499);
    assert_eq!(r.compose(&r), None);
    assert_eq!(r.compose(&Rotation::identity()), Some(r));
}
