use bouncing_balls::ball::Ball;
use bouncing_balls::field::Field;
use bouncing_balls::fixed::{LIMIT, UNIT};
use bouncing_balls::game::Game;
use bouncing_balls::render::{Color, Geometry, Gm};
use bouncing_balls::vector::Vector3;

#[test]
fn default_game_is_empty() {
    let game = Game::default();
    assert!(game.balls().is_empty());
    assert_eq!(game.field().gravitational_acceleration(), 100);
    assert_eq!(game.field().elasticity(), 800_000);
    assert_eq!((game.field().x_min(), game.field().x_max()), (-UNIT, UNIT));
}

#[test]
fn new_game_keeps_field_and_balls() {
    let field = Field::new(-2, 2, -3, 3, -4, 4, 5, 6).unwrap();
    let a = Ball::new(Vector3::new(1, 2, 3), Vector3::new(4, 5, 6), 7).unwrap();
    let b = Ball::default();
    let game = Game::new(field, vec![a, b]);
    assert_eq!(game.balls().len(), 2);
    assert_eq!(game.balls()[0], a);
    assert_eq!(game.balls()[1], b);
    assert_eq!(game.field().z_max(), 4);
    assert_eq!(game.field().gravitational_acceleration(), 5);
}

#[test]
fn put_ball_at_places_the_standard_ball() {
    let mut game = Game::default();
    game.put_ball_at(-123, 456);
    game.put_ball_at(0, 0);
    assert_eq!(game.balls().len(), 2);
    assert_eq!(game.balls()[0].center_position(), Vector3::new(-123, UNIT, 456));
    assert_eq!(game.balls()[0].velocity(), Vector3::new(0, 0, 0));
    assert_eq!(game.balls()[0].radius(), 100_000);
    assert_eq!(game.balls()[1], Ball::default());
}

#[test]
fn put_ball_at_saturates_the_place() {
    let mut game = Game::default();
    game.put_ball_at(i64::MAX, i64::MIN);
    assert_eq!(game.balls()[0].center_position(), Vector3::new(LIMIT, UNIT, -LIMIT));
}

#[test]
fn put_ball_places_balls_near_the_axis() {
    let mut game = Game::default();
    for count in 1..=300 {
        game.put_ball();
        assert_eq!(game.balls().len(), count);
    }
    for ball in game.balls().iter() {
        let place = ball.center_position();
        assert!(-UNIT / 2 <= place.x() && place.x() < UNIT / 2);
        assert!(-UNIT / 2 <= place.z() && place.z() < UNIT / 2);
        assert_eq!(place.y(), UNIT);
        assert_eq!(ball.velocity(), Vector3::new(0, 0, 0));
        assert_eq!(ball.radius(), 100_000);
    }
}

#[test]
fn put_ball_draws_different_places() {
    let mut game = Game::default();
    for _ in 0..300 {
        game.put_ball();
    }
    let first = game.balls()[0].center_position();
    assert!(game.balls().iter().any(|b| b.center_position().x() != first.x()));
    assert!(game.balls().iter().any(|b| b.center_position().z() != first.z()));
    assert!(game.balls().iter().any(|b| b.center_position().x() != -UNIT / 2));
    assert!(game.balls().iter().any(|b| b.center_position().x() != b.center_position().z()));
}

#[test]
fn put_ball_keeps_the_balls_that_are_there() {
    let a = Ball::new(Vector3::new(1, 2, 3), Vector3::new(4, 5, 6), 7).unwrap();
    let mut game = Game::new(Field::default(), vec![a]);
    game.put_ball();
    game.put_ball_at(9, 9);
    assert_eq!(game.balls().len(), 3);
    assert_eq!(game.balls()[0], a);
    assert_eq!(game.balls()[2].center_position(), Vector3::new(9, UNIT, 9));
    assert_eq!(game.field().elasticity(), 800_000);
}

#[test]
fn field_is_drawn_as_its_box() {
    let field = Field::new(-2, 3, -5, 7, -11, 13, 0, UNIT).unwrap();
    let gm = field.to_gm();
    assert_eq!(
        gm.geometry,
        Geometry::Cuboid { min: Vector3::new(-2, -5, -11), max: Vector3::new(3, 7, 13) }
    );
    assert_eq!(gm.material, Color { r: 128, g: 128, b: 128, a: 128 });
}

#[test]
fn ball_is_drawn_as_its_sphere() {
    let ball = Ball::new(Vector3::new(1, 2, 3), Vector3::new(4, 5, 6), 7).unwrap();
    let gm = ball.to_gm();
    assert_eq!(gm.geometry, Geometry::Sphere { center: Vector3::new(1, 2, 3), radius: 7 });
    assert_eq!(gm.material, Color { r: 255, g: 255, b: 255, a: 200 });
}

#[test]
fn game_is_drawn_as_the_box_and_the_spheres() {
    let a = Ball::new(Vector3::new(1, 2, 3), Vector3::new(4, 5, 6), 7).unwrap();
    let b = Ball::default();
    let game = Game::new(Field::default(), vec![a, b]);
    let shapes: Vec<Gm> = game.to_gm();
    assert_eq!(shapes.len(), 3);
    assert_eq!(shapes[0], Field::default().to_gm());
    assert_eq!(
        shapes[0].geometry,
        Geometry::Cuboid { min: Vector3::new(-UNIT, -UNIT, -UNIT), max: Vector3::new(UNIT, UNIT, UNIT) }
    );
    assert_eq!(shapes[1], a.to_gm());
    assert_eq!(shapes[2], b.to_gm());
    assert_eq!(game.balls().len(), 2);
    assert_eq!(game.balls()[0], a);
}

#[test]
fn empty_game_is_drawn_as_the_box_alone() {
    let shapes = Game::default().to_gm();
    assert_eq!(shapes.len(), 1);
    assert_eq!(shapes[0].material, Color { r: 128, g: 128, b: 128, a: 128 });
}

#[test]
fn spawned_ball_is_the_standard_ball_moved() {
    let ball = Ball::spawned(-5, 7);
    assert_eq!(ball.center_position(), Vector3::new(-5, UNIT, 7));
    assert_eq!(ball.velocity(), Ball::default().velocity());
    assert_eq!(ball.radius(), Ball::default().radius());
    assert_eq!(Ball::spawned(0, 0), Ball::default());
    assert_eq!(Ball::spawned(LIMIT + 1, -LIMIT - 1).center_position(), Vector3::new(LIMIT, UNIT, -LIMIT));
}
