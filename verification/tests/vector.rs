use camera2d::{Point2, Rational, Vector2, Vector4};

fn q(n: i64, d: i64) -> Rational {
    Rational::new(n, d).unwrap()
}

#[test]
fn point_new_keeps_the_coordinates() {
    let p = Point2::new(q(1, 2), q(-3, 4));
    assert_eq!(p.x, q(1, 2));
    assert_eq!(p.y, q(-3, 4));
    assert_eq!(p, Point2 { x: q(2, 4), y: q(3, -4) });
}

#[test]
fn point_from_i32_is_the_integer_point() {
    let p = Point2::from_i32(-7, 9);
    assert_eq!(p, Point2::new(q(-7, 1), q(9, 1)));
}

#[test]
fn vector_new_keeps_the_coordinates() {
    let v = Vector2::new(q(5, 1), q(1, 5));
    assert_eq!(v.x, q(5, 1));
    assert_eq!(v.y, q(1, 5));
}

#[test]
fn vector_from_i32_is_the_integer_vector() {
    assert_eq!(Vector2::from_i32(720, 480), Vector2::new(q(720, 1), q(480, 1)));
}

#[test]
fn has_zero_finds_a_zero_coordinate() {
    assert!(Vector2::from_i32(0, 1).has_zero());
    assert!(Vector2::from_i32(1, 0).has_zero());
    assert!(Vector2::from_i32(0, 0).has_zero());
    assert!(!Vector2::from_i32(1, -1).has_zero());
    assert!(!Vector2::new(q(1, 9223372036854775807), q(-1, 9223372036854775807)).has_zero());
}

#[test]
fn dot_adds_the_four_products() {
    let a = Vector4 { x: q(1, 2), y: q(1, 3), z: q(1, 6), w: q(2, 1) };
    let b = Vector4 { x: q(2, 1), y: q(3, 1), z: q(6, 1), w: q(-1, 1) };
    assert_eq!(a.dot(&b), Some(q(1, 1)));
    assert_eq!(b.dot(&a), Some(q(1, 1)));
}
