use bouncing_balls::ball::{Ball, RADIUS_LIMIT};
use bouncing_balls::field::Field;
use bouncing_balls::fixed::{LIMIT, UNIT};
use bouncing_balls::vector::Vector3;

#[test]
fn unit_and_limit_have_their_values() {
    assert_eq!(UNIT, 1_000_000);
    assert_eq!(LIMIT, 1_000_000_000_000);
    assert_eq!(RADIUS_LIMIT, LIMIT / 2);
}

#[test]
fn vector_keeps_coordinates_in_range() {
    let v = Vector3::new(1, -2, 3);
    assert_eq!((v.x(), v.y(), v.z()), (1, -2, 3));
    let edge = Vector3::new(LIMIT, -LIMIT, 0);
    assert_eq!((edge.x(), edge.y(), edge.z()), (LIMIT, -LIMIT, 0));
}

#[test]
fn vector_saturates_coordinates_out_of_range() {
    let v = Vector3::new(i64::MAX, i64::MIN, LIMIT + 1);
    assert_eq!((v.x(), v.y(), v.z()), (LIMIT, -LIMIT, LIMIT));
    let w = Vector3::new(-LIMIT - 1, 5, -7);
    assert_eq!((w.x(), w.y(), w.z()), (-LIMIT, 5, -7));
}

#[test]
fn dot_product_is_exact() {
    let a = Vector3::new(1, 2, 3);
    let b = Vector3::new(-4, 5, 6);
    assert_eq!(a.dot(&b), -4 + 10 + 18);
    assert_eq!(a.dot(&a), 14);
}

#[test]
fn dot_product_of_the_largest_vectors_fits() {
    let a = Vector3::new(LIMIT, LIMIT, LIMIT);
    let b = Vector3::new(-LIMIT, -LIMIT, -LIMIT);
    let square = (LIMIT as i128) * (LIMIT as i128);
    assert_eq!(a.dot(&a), 3 * square);
    assert_eq!(a.dot(&b), -3 * square);
}

#[test]
fn default_field_is_the_standard_one() {
    let field = Field::default();
    assert_eq!((field.x_min(), field.x_max()), (-UNIT, UNIT));
    assert_eq!((field.y_min(), field.y_max()), (-UNIT, UNIT));
    assert_eq!((field.z_min(), field.z_max()), (-UNIT, UNIT));
    assert_eq!(field.gravitational_acceleration(), 100);
    assert_eq!(field.elasticity(), 800_000);
}

#[test]
fn field_new_keeps_what_it_is_given() {
    let field = Field::new(-1, 2, -3, 4, -5, 6, 7, 8).unwrap();
    assert_eq!((field.x_min(), field.x_max()), (-1, 2));
    assert_eq!((field.y_min(), field.y_max()), (-3, 4));
    assert_eq!((field.z_min(), field.z_max()), (-5, 6));
    assert_eq!(field.gravitational_acceleration(), 7);
    assert_eq!(field.elasticity(), 8);
}

#[test]
fn field_new_accepts_the_widest_field() {
    let field = Field::new(-LIMIT + 1, LIMIT - 1, -LIMIT + 1, LIMIT - 1, -LIMIT + 1, LIMIT - 1, LIMIT, UNIT);
    assert!(field.is_some());
    let still = Field::new(-1, 1, -1, 1, -1, 1, 0, 0);
    assert!(still.is_some());
}

#[test]
fn field_new_refuses_walls_out_of_order() {
    assert!(Field::new(1, 1, -1, 1, -1, 1, 0, UNIT).is_none());
    assert!(Field::new(2, 1, -1, 1, -1, 1, 0, UNIT).is_none());
    assert!(Field::new(-1, 1, 1, 1, -1, 1, 0, UNIT).is_none());
    assert!(Field::new(-1, 1, 3, 1, -1, 1, 0, UNIT).is_none());
    assert!(Field::new(-1, 1, -1, 1, 1, 1, 0, UNIT).is_none());
    assert!(Field::new(-1, 1, -1, 1, 5, 1, 0, UNIT).is_none());
}

#[test]
fn field_new_refuses_walls_at_the_end_of_the_range() {
    assert!(Field::new(-LIMIT, 1, -1, 1, -1, 1, 0, UNIT).is_none());
    assert!(Field::new(-1, LIMIT, -1, 1, -1, 1, 0, UNIT).is_none());
    assert!(Field::new(-1, 1, -LIMIT, 1, -1, 1, 0, UNIT).is_none());
    assert!(Field::new(-1, 1, -1, LIMIT, -1, 1, 0, UNIT).is_none());
    assert!(Field::new(-1, 1, -1, 1, -LIMIT, 1, 0, UNIT).is_none());
    assert!(Field::new(-1, 1, -1, 1, -1, LIMIT, 0, UNIT).is_none());
    assert!(Field::new(i64::MIN, i64::MAX, -1, 1, -1, 1, 0, UNIT).is_none());
}

#[test]
fn field_new_refuses_gravity_and_restitution_out_of_range() {
    assert!(Field::new(-1, 1, -1, 1, -1, 1, -1, UNIT).is_none());
    assert!(Field::new(-1, 1, -1, 1, -1, 1, LIMIT + 1, UNIT).is_none());
    assert!(Field::new(-1, 1, -1, 1, -1, 1, 0, -1).is_none());
    assert!(Field::new(-1, 1, -1, 1, -1, 1, 0, UNIT + 1).is_none());
}

#[test]
fn default_ball_rests_one_unit_up() {
    let ball = Ball::default();
    assert_eq!(ball.center_position(), Vector3::new(0, UNIT, 0));
    assert_eq!(ball.velocity(), Vector3::new(0, 0, 0));
    assert_eq!(ball.radius(), 100_000);
}

#[test]
fn ball_new_keeps_what_it_is_given() {
    let ball = Ball::new(Vector3::new(1, 2, 3), Vector3::new(-4, -5, -6), 7).unwrap();
    assert_eq!(ball.center_position(), Vector3::new(1, 2, 3));
    assert_eq!(ball.velocity(), Vector3::new(-4, -5, -6));
    assert_eq!(ball.radius(), 7);
}

#[test]
fn ball_new_accepts_radii_up_to_the_limit() {
    let origin = Vector3::new(0, 0, 0);
    assert!(Ball::new(origin, origin, 1).is_some());
    assert!(Ball::new(origin, origin, RADIUS_LIMIT).is_some());
}

#[test]
fn ball_new_refuses_other_radii() {
    let origin = Vector3::new(0, 0, 0);
    assert!(Ball::new(origin, origin, 0).is_none());
    assert!(Ball::new(origin, origin, -1).is_none());
    assert!(Ball::new(origin, origin, i64::MIN).is_none());
    assert!(Ball::new(origin, origin, RADIUS_LIMIT + 1).is_none());
    assert!(Ball::new(origin, origin, i64::MAX).is_none());
}
