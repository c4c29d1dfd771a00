//! A ball, and what one tick and one contact do to it.
use vstd::prelude::*;
use crate::field::{Field, FieldView};
use crate::fixed::{
    in_range, lemma_product_bound, magnitude, quotient, saturate, saturated, scaled, LIMIT, UNIT,
};
use crate::vector::{Vec3, Vector3};

verus! {

/// The largest radius a ball can have: half the largest scalar, so that the
/// distance between the centers of two touching balls is a scalar.
pub const RADIUS_LIMIT: i64 = 500_000_000_000;

/// The speed along one axis after a bounce off a wall that is square to it:
/// turned round, and cut down to the part that the restitution leaves.
pub open spec fn bounced(speed: int, restitution: int) -> int {
    -scaled(speed, restitution)
}

/// The part of `velocity` that runs along `direction`: with `n` the unit vector
/// of `direction`, this is `n * (velocity . n)`, which is
/// `direction * (velocity . direction) / (direction . direction)` and so needs
/// no square root. Each coordinate is rounded toward zero.
pub open spec fn normal_part(velocity: Vec3, direction: Vec3) -> Vec3 {
    let along = velocity.dot(direction);
    let square = direction.dot(direction);
    Vec3 {
        x: quotient(direction.x * along, square),
        y: quotient(direction.y * along, square),
        z: quotient(direction.z * along, square),
    }
}

/// `velocity` reflected off the plane that is square to `direction`.
///
/// A velocity that does not run against `direction` is left as it is: the
/// bodies are parting already. Otherwise the part `a` along `direction` is
/// turned round and scaled by the restitution, and the rest is kept:
/// `(velocity - a) - a * restitution`, saturated.
pub open spec fn reflected(velocity: Vec3, direction: Vec3, restitution: int) -> Vec3 {
    if velocity.dot(direction) >= 0 {
        velocity
    } else {
        let a = normal_part(velocity, direction);
        Vec3 {
            x: velocity.x - a.x - scaled(a.x, restitution),
            y: velocity.y - a.y - scaled(a.y, restitution),
            z: velocity.z - a.z - scaled(a.z, restitution),
        }.saturated()
    }
}

/// What a [`Ball`] stands for: a sphere and its velocity per tick.
pub struct BallView {
    pub center_position: Vec3,
    pub velocity: Vec3,
    pub radius: int,
}

impl BallView {
    /// Position and velocity are in the scalar range, and the radius is
    /// positive and at most [`RADIUS_LIMIT`].
    pub open spec fn wf(self) -> bool {
        &&& self.center_position.in_range()
        &&& self.velocity.in_range()
        &&& 0 < self.radius <= RADIUS_LIMIT
    }

    /// The ball at rest one unit above the origin, a tenth of a unit in radius.
    pub open spec fn standard() -> BallView {
        BallView {
            center_position: Vec3 { x: 0, y: UNIT as int, z: 0 },
            velocity: Vec3::zero(),
            radius: 100_000,
        }
    }

    /// A new ball: the standard ball, moved to `(x, z)` on the horizontal plane.
    pub open spec fn spawned(x: int, z: int) -> BallView {
        BallView {
            center_position: Vec3 { x, y: BallView::standard().center_position.y, z },
            ..BallView::standard()
        }
    }

    /// The ball one tick later in `field`.
    ///
    /// Gravity is taken from the vertical speed, the ball moves by its new
    /// velocity, and then each axis is looked at on its own: where the new
    /// position lies beyond a wall, or below the floor, the speed along that
    /// axis bounces. There is no ceiling, and the position is not corrected.
    pub open spec fn after_frame(self, field: FieldView) -> BallView {
        let falling = Vec3 { y: saturated(self.velocity.y - field.gravity), ..self.velocity };
        let moved = self.center_position.plus(falling).saturated();
        BallView {
            center_position: moved,
            velocity: Vec3 {
                x: if field.beyond_x(moved.x) {
                    bounced(falling.x, field.restitution)
                } else {
                    falling.x
                },
                y: if field.below_floor(moved.y) {
                    bounced(falling.y, field.restitution)
                } else {
                    falling.y
                },
                z: if field.beyond_z(moved.z) {
                    bounced(falling.z, field.restitution)
                } else {
                    falling.z
                },
            },
            radius: self.radius,
        }
    }

    /// Whether the two spheres touch or overlap.
    pub open spec fn touches(self, other: BallView) -> bool {
        let direction = self.center_position.minus(other.center_position);
        let reach = self.radius + other.radius;
        direction.dot(direction) <= reach * reach
    }

    /// The ball after it has met `other`: if the two have different centers
    /// and touch, its velocity is reflected off the plane between them;
    /// otherwise nothing changes. Of `other` only the place and the size count.
    pub open spec fn after_contact(self, other: BallView, restitution: int) -> BallView {
        if self.center_position != other.center_position && self.touches(other) {
            BallView {
                velocity: reflected(
                    self.velocity,
                    self.center_position.minus(other.center_position),
                    restitution,
                ),
                ..self
            }
        } else {
            self
        }
    }

    /// The ball after it has met each of `others` in turn, the first first.
    pub open spec fn after_contacts(self, others: Seq<BallView>, restitution: int) -> BallView
        decreases others.len(),
    {
        if others.len() == 0 {
            self
        } else {
            self.after_contacts(others.drop_last(), restitution).after_contact(
                others.last(),
                restitution,
            )
        }
    }
}

/// If `n / d` is bounded by `m` before rounding, it is so after it.
proof fn lemma_quotient_bound(n: int, d: int, m: int)
    by (nonlinear_arith)
    requires
        d > 0,
        m >= 0,
        -(d * m) <= n <= d * m,
    ensures
        -m <= quotient(n, d) <= m,
{
}

/// A coordinate of `direction`, times `along`, is bounded by the square of
/// `direction` times the magnitude of `along`.
proof fn lemma_normal_part_bound(c: int, rest: int, along: int, m: int)
    by (nonlinear_arith)
    requires
        -m <= along <= m,
        rest >= 0,
        c * c + rest > 0,
    ensures
        -((c * c + rest) * m) <= c * along <= (c * c + rest) * m,
{
}

/// A velocity that runs against a direction shows that the direction has length.
proof fn lemma_direction_has_length(v: Vec3, d: Vec3)
    by (nonlinear_arith)
    requires
        v.x * d.x + v.y * d.y + v.z * d.z < 0,
    ensures
        d.x * d.x + d.y * d.y + d.z * d.z > 0,
        d.x * d.x >= 0,
        d.y * d.y >= 0,
        d.z * d.z >= 0,
{
}

/// A coordinate whose square is at most the square of `reach` is at most `reach`.
proof fn lemma_within_reach(c: int, rest: int, reach: int)
    by (nonlinear_arith)
    requires
        rest >= 0,
        reach >= 0,
        c * c + rest <= reach * reach,
    ensures
        -reach <= c <= reach,
{
}

/// The square of a bounded integer is bounded, and is not negative.
proof fn lemma_square_bound(c: int, m: int)
    by (nonlinear_arith)
    requires
        -m <= c <= m,
    ensures
        0 <= c * c <= m * m,
{
}

/// What a bounce does to a speed, for a restitution between nothing and
/// everything: the speed turns round or vanishes, and its magnitude does not
/// grow; a speed other than zero keeps its magnitude exactly when the
/// restitution is `UNIT`.
pub proof fn lemma_bounce(speed: int, restitution: int)
    requires
        0 <= restitution <= UNIT,
    ensures
        speed >= 0 ==> bounced(speed, restitution) <= 0,
        speed <= 0 ==> bounced(speed, restitution) >= 0,
        magnitude(bounced(speed, restitution)) <= magnitude(speed),
        speed != 0 ==> (magnitude(bounced(speed, restitution)) == magnitude(speed) <==> restitution
            == UNIT),
{
    let m = magnitude(speed);
    let kept = (m * restitution) / (UNIT as int);
    assert(m * restitution >= 0) by (nonlinear_arith)
        requires
            m >= 0,
            restitution >= 0,
    ;
    if speed >= 0 {
        assert(bounced(speed, restitution) == -kept);
    } else {
        assert(speed * restitution == -(m * restitution)) by (nonlinear_arith)
            requires
                m == -speed,
        ;
        assert(bounced(speed, restitution) == kept);
    }
    assert(0 <= kept <= m && (kept == m ==> m == 0 || restitution == UNIT) && (restitution == UNIT
        ==> kept == m)) by (nonlinear_arith)
        requires
            m >= 0,
            0 <= restitution <= UNIT,
            UNIT == 1_000_000,
            kept == (m * restitution) / (UNIT as int),
    ;
}

/// One coordinate of the part of a velocity that runs along a direction.
fn normal_coordinate(c: i64, along: i128, square: i128) -> (r: i128)
    requires
        in_range(c as int),
        -3 * (LIMIT * LIMIT) <= along <= 3 * (LIMIT * LIMIT),
        0 < square <= 3 * (LIMIT * LIMIT),
        -(square * (3 * (LIMIT * LIMIT))) <= c * along <= square * (3 * (LIMIT * LIMIT)),
    ensures
        r == quotient(c * along, square as int),
        -3 * (LIMIT * LIMIT) <= r <= 3 * (LIMIT * LIMIT),
{
    proof {
        lemma_product_bound(c as int, along as int, LIMIT as int, 3 * (LIMIT * LIMIT));
        lemma_quotient_bound(c * along, square as int, 3 * (LIMIT * LIMIT));
    }
    (c as i128) * along / square
}

/// One coordinate of a reflected velocity, before it is saturated.
fn reflected_coordinate(v: i64, a: i128, elasticity: i64) -> (r: i128)
    requires
        in_range(v as int),
        -3 * (LIMIT * LIMIT) <= a <= 3 * (LIMIT * LIMIT),
        0 <= elasticity <= UNIT,
    ensures
        r == v - a - scaled(a as int, elasticity as int),
{
    proof {
        lemma_product_bound(a as int, elasticity as int, 3 * (LIMIT * LIMIT), UNIT as int);
    }
    (v as i128) - a - a * (elasticity as i128) / (UNIT as i128)
}

/// The speed along one axis after a bounce.
fn bounce(speed: i64, elasticity: i64) -> (r: i64)
    requires
        in_range(speed as int),
        0 <= elasticity <= UNIT,
    ensures
        r == bounced(speed as int, elasticity as int),
        in_range(r as int),
{
    proof {
        lemma_product_bound(speed as int, elasticity as int, LIMIT as int, UNIT as int);
        lemma_bounce(speed as int, elasticity as int);
    }
    -(speed * elasticity / UNIT)
}

/// A sphere that moves: the center, the velocity per tick, and the radius.
#[derive(Clone, Copy, Debug, PartialEq, Eq, Structural)]
pub struct Ball {
    center_position: Vector3,
    velocity: Vector3,
    radius: i64,
}

impl View for Ball {
    type V = BallView;

    closed spec fn view(&self) -> BallView {
        BallView {
            center_position: self.center_position@,
            velocity: self.velocity@,
            radius: self.radius as int,
        }
    }
}

impl Ball {
    /// Every ball that exists is well formed.
    #[verifier::type_invariant]
    pub open spec fn wf(self) -> bool {
        self@.wf()
    }

    /// The ball at `center_position` with the given velocity and radius, if
    /// the radius is positive and at most [`RADIUS_LIMIT`]; nothing otherwise.
    pub fn new(center_position: Vector3, velocity: Vector3, radius: i64) -> (r: Option<Ball>)
        ensures
            r is Some <==> 0 < radius <= RADIUS_LIMIT,
            r is Some ==> r->0@ == (BallView {
                center_position: center_position@,
                velocity: velocity@,
                radius: radius as int,
            }),
    {
        if 0 < radius && radius <= RADIUS_LIMIT {
            proof {
                use_type_invariant(&center_position);
                use_type_invariant(&velocity);
            }
            Some(Ball { center_position, velocity, radius })
        } else {
            None
        }
    }

    /// A new ball: the standard ball, moved to `(x, z)` on the horizontal
    /// plane, each saturated.
    pub fn spawned(x: i64, z: i64) -> (r: Ball)
        ensures
            r@ == BallView::spawned(saturated(x as int), saturated(z as int)),
    {
        let standard = Ball::default();
        Ball {
            center_position: Vector3::new(x, standard.center_position.y(), z),
            ..standard
        }
    }

    /// Where the center of the ball is.
    pub fn center_position(&self) -> (r: Vector3)
        ensures
            r@ == self@.center_position,
    {
        self.center_position
    }

    /// How far the ball moves in one tick, before gravity and walls have their say.
    pub fn velocity(&self) -> (r: Vector3)
        ensures
            r@ == self@.velocity,
    {
        self.velocity
    }

    /// The radius of the ball.
    pub fn radius(&self) -> (r: i64)
        ensures
            r == self@.radius,
    {
        self.radius
    }

    /// Moves the ball through one tick in `field`.
    pub fn do_frame(&mut self, field: &Field)
        ensures
            final(self)@ == old(self)@.after_frame(field@),
    {
        proof {
            use_type_invariant(&*self);
        }
        let elasticity = field.elasticity();
        let fallen = saturate((self.velocity.y() - field.gravitational_acceleration()) as i128);
        let x = saturate((self.center_position.x() + self.velocity.x()) as i128);
        let y = saturate((self.center_position.y() + fallen) as i128);
        let z = saturate((self.center_position.z() + self.velocity.z()) as i128);
        let mut vx = self.velocity.x();
        let mut vy = fallen;
        let mut vz = self.velocity.z();
        if x < field.x_min() || x > field.x_max() {
            vx = bounce(vx, elasticity);
        }
        if z < field.z_min() || z > field.z_max() {
            vz = bounce(vz, elasticity);
        }
        if y < field.y_min() {
            vy = bounce(vy, elasticity);
        }
        self.center_position = Vector3::new(x, y, z);
        self.velocity = Vector3::new(vx, vy, vz);
    }

    /// Reflects the ball's velocity off `other` if the two touch or overlap.
    /// Two balls with one center are left alone.
    pub fn do_collision(&mut self, other: &Ball, field: &Field)
        ensures
            final(self)@ == old(self)@.after_contact(other@, field@.restitution),
    {
        proof {
            use_type_invariant(&*self);
            use_type_invariant(other);
        }
        let elasticity = field.elasticity();
        let p = self.center_position;
        let q = other.center_position;
        if p.x() == q.x() && p.y() == q.y() && p.z() == q.z() {
            return ;
        }
        let dx: i64 = p.x() - q.x();
        let dy: i64 = p.y() - q.y();
        let dz: i64 = p.z() - q.z();
        let reach: i64 = self.radius + other.radius;
        proof {
            lemma_square_bound(dx as int, 2 * LIMIT);
            lemma_square_bound(dy as int, 2 * LIMIT);
            lemma_square_bound(dz as int, 2 * LIMIT);
            lemma_square_bound(reach as int, LIMIT as int);
        }
        let square: i128 = (dx as i128) * (dx as i128) + (dy as i128) * (dy as i128) + (dz as i128)
            * (dz as i128);
        if square <= (reach as i128) * (reach as i128) {
            proof {
                lemma_within_reach(dx as int, dy * dy + dz * dz, reach as int);
                lemma_within_reach(dy as int, dx * dx + dz * dz, reach as int);
                lemma_within_reach(dz as int, dx * dx + dy * dy, reach as int);
            }
            let direction = Vector3::new(dx, dy, dz);
            self.velocity = Ball::collision(self.velocity, direction, elasticity);
        }
    }

    /// `velocity` reflected off the plane that is square to `plane_direction`,
    /// with the part along that direction scaled by `elasticity`.
    pub fn collision(velocity: Vector3, plane_direction: Vector3, elasticity: i64) -> (r: Vector3)
        requires
            0 <= elasticity <= UNIT,
        ensures
            r@ == reflected(velocity@, plane_direction@, elasticity as int),
    {
        let along = velocity.dot(&plane_direction);
        if along >= 0 {
            return velocity;
        }
        let square = plane_direction.dot(&plane_direction);
        let dx = plane_direction.x();
        let dy = plane_direction.y();
        let dz = plane_direction.z();
        proof {
            use_type_invariant(&velocity);
            use_type_invariant(&plane_direction);
            lemma_direction_has_length(velocity@, plane_direction@);
            lemma_normal_part_bound(dx as int, dy * dy + dz * dz, along as int, 3 * (LIMIT * LIMIT));
            lemma_normal_part_bound(dy as int, dx * dx + dz * dz, along as int, 3 * (LIMIT * LIMIT));
            lemma_normal_part_bound(dz as int, dx * dx + dy * dy, along as int, 3 * (LIMIT * LIMIT));
        }
        let ax = normal_coordinate(dx, along, square);
        let ay = normal_coordinate(dy, along, square);
        let az = normal_coordinate(dz, along, square);
        Vector3::from_wide(
            reflected_coordinate(velocity.x(), ax, elasticity),
            reflected_coordinate(velocity.y(), ay, elasticity),
            reflected_coordinate(velocity.z(), az, elasticity),
        )
    }
}

impl Default for Ball {
    /// The ball at rest one unit above the origin, a tenth of a unit in radius.
    fn default() -> (r: Ball)
        ensures
            r@ == BallView::standard(),
    {
        Ball {
            center_position: Vector3::new(0, UNIT, 0),
            velocity: Vector3::new(0, 0, 0),
            radius: 100_000,
        }
    }
}

} // verus!
