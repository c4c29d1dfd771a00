//! What holds of the simulation whatever the balls and the field are.
use vstd::prelude::*;
use crate::ball::{bounced, lemma_bounce, normal_part, reflected, BallView};
use crate::field::FieldView;
use crate::fixed::{magnitude, quotient, saturated, scaled, LIMIT, UNIT};
use crate::game::GameView;
use crate::render::Shape;
use crate::vector::Vec3;

verus! {

/// The sum of the numbers from 1 to `n`.
pub open spec fn triangle(n: nat) -> nat
    decreases n,
{
    if n == 0 {
        0
    } else {
        n + triangle((n - 1) as nat)
    }
}

impl GameView {
    /// The game after its contacts have been resolved `times` times over.
    pub open spec fn after_collisions(self, times: nat) -> GameView
        decreases times,
    {
        if times == 0 {
            self
        } else {
            self.after_collisions((times - 1) as nat).after_collision()
        }
    }
}

impl BallView {
    /// The ball `ticks` ticks later in `field`.
    pub open spec fn after_frames(self, field: FieldView, ticks: nat) -> BallView
        decreases ticks,
    {
        if ticks == 0 {
            self
        } else {
            self.after_frames(field, (ticks - 1) as nat).after_frame(field)
        }
    }

    /// Whether the ball either keeps clear of `other` or does not move toward
    /// it: a contact with `other` then has nothing to turn round.
    pub open spec fn parting_from(self, other: BallView) -> bool {
        self.center_position != other.center_position && self.touches(other)
            ==> self.velocity.dot(self.center_position.minus(other.center_position)) >= 0
    }
}

/// Free fall. A ball let go at rest between the side walls, which after
/// `ticks` ticks has not yet sunk below the floor and whose speed is still a
/// scalar, has fallen straight down: its speed is `ticks` times the gravity,
/// and it lies below where it began by the sum of the speeds it has had, the
/// gravity times `1 + 2 + ... + ticks`.
pub proof fn lemma_free_fall(ball: BallView, field: FieldView, ticks: nat)
    requires
        ball.wf(),
        field.wf(),
        ball.velocity == Vec3::zero(),
        field.x_min <= ball.center_position.x <= field.x_max,
        field.z_min <= ball.center_position.z <= field.z_max,
        ticks * field.gravity <= LIMIT,
        ball.center_position.y - field.gravity * triangle(ticks) >= field.y_min,
    ensures
        ball.after_frames(field, ticks).velocity == (Vec3 {
            x: 0,
            y: -(ticks * field.gravity),
            z: 0,
        }),
        ball.after_frames(field, ticks).center_position == (Vec3 {
            x: ball.center_position.x,
            y: ball.center_position.y - field.gravity * triangle(ticks),
            z: ball.center_position.z,
        }),
        ball.after_frames(field, ticks).radius == ball.radius,
    decreases ticks,
{
    let g = field.gravity;
    if ticks > 0 {
        let earlier = (ticks - 1) as nat;
        assert(earlier * g <= ticks * g && -(earlier * g) - g == -(ticks * g))
            by (nonlinear_arith)
            requires
                ticks == earlier + 1,
                g >= 0,
        ;
        assert(g * triangle(ticks) == g * triangle(earlier) + ticks * g && g * triangle(earlier)
            >= 0 && ticks * g >= 0) by (nonlinear_arith)
            requires
                triangle(ticks) == ticks + triangle(earlier),
                g >= 0,
        ;
        lemma_free_fall(ball, field, earlier);
    } else {
        assert(ticks * g == 0 && g * triangle(ticks) == 0) by (nonlinear_arith)
            requires
                ticks == 0,
                triangle(ticks) == 0,
        ;
    }
}

/// A wall turns a ball back. A ball at or beyond the upper wall in `x` that
/// moves further out, or at or beyond the lower wall and moving further out
/// there, has after one tick the speed in `x` that a bounce gives: turned
/// round and scaled by the restitution, or zero where less than one millionth
/// is left of it. The speeds along the other axes are those of a ball that met
/// no wall in `x`: in `z` the old one, unless the ball is beyond a wall there
/// too, and in `y` the old one less the gravity, unless the ball is below the
/// floor.
pub proof fn lemma_wall_turns_ball_back(ball: BallView, field: FieldView)
    requires
        ball.wf(),
        field.wf(),
        (ball.center_position.x >= field.x_max && ball.velocity.x > 0) || (ball.center_position.x
            <= field.x_min && ball.velocity.x < 0),
    ensures
        ({
            let after = ball.after_frame(field);
            &&& field.beyond_x(after.center_position.x)
            &&& after.velocity.x == bounced(ball.velocity.x, field.restitution)
            &&& ball.velocity.x > 0 ==> after.velocity.x <= 0
            &&& ball.velocity.x < 0 ==> after.velocity.x >= 0
            &&& magnitude(ball.velocity.x) * field.restitution >= UNIT ==> after.velocity.x != 0
            &&& !field.beyond_z(after.center_position.z) ==> after.velocity.z == ball.velocity.z
            &&& !field.below_floor(after.center_position.y) ==> after.velocity.y == saturated(
                ball.velocity.y - field.gravity,
            )
        }),
{
    lemma_bounce(ball.velocity.x, field.restitution);
    let m = magnitude(ball.velocity.x);
    assert(m * field.restitution >= UNIT ==> (m * field.restitution) / (UNIT as int) >= 1);
    if ball.velocity.x < 0 {
        assert(ball.velocity.x * field.restitution == -(m * field.restitution))
            by (nonlinear_arith)
            requires
                m == -ball.velocity.x,
        ;
    }
}

/// A bounce off a wall gains nothing. After one tick the speed along `x`, and
/// along `z`, is no greater in magnitude than before, and the speed along `y`
/// no greater than it was once gravity had been taken from it. Where the ball
/// has bounced along an axis with a speed other than zero, the magnitude is
/// kept exactly when the restitution is `UNIT`.
pub proof fn lemma_wall_bounce_gains_nothing(ball: BallView, field: FieldView)
    requires
        ball.wf(),
        field.wf(),
    ensures
        ({
            let after = ball.after_frame(field);
            let fallen = saturated(ball.velocity.y - field.gravity);
            let full = field.restitution == UNIT;
            &&& magnitude(after.velocity.x) <= magnitude(ball.velocity.x)
            &&& magnitude(after.velocity.z) <= magnitude(ball.velocity.z)
            &&& magnitude(after.velocity.y) <= magnitude(fallen)
            &&& field.beyond_x(after.center_position.x) && ball.velocity.x != 0 ==> (magnitude(
                after.velocity.x,
            ) == magnitude(ball.velocity.x) <==> full)
            &&& field.beyond_z(after.center_position.z) && ball.velocity.z != 0 ==> (magnitude(
                after.velocity.z,
            ) == magnitude(ball.velocity.z) <==> full)
            &&& field.below_floor(after.center_position.y) && fallen != 0 ==> (magnitude(
                after.velocity.y,
            ) == magnitude(fallen) <==> full)
        }),
{
    lemma_bounce(ball.velocity.x, field.restitution);
    lemma_bounce(ball.velocity.z, field.restitution);
    lemma_bounce(saturated(ball.velocity.y - field.gravity), field.restitution);
}

/// A ball that does not move toward another is not changed by meeting it,
/// even where the two overlap.
pub proof fn lemma_parting_ball_unchanged(ball: BallView, other: BallView, restitution: int)
    requires
        ball.parting_from(other),
    ensures
        ball.after_contact(other, restitution) == ball,
{
}

/// A ball that is parting from each of `others` is not changed by meeting them all.
pub proof fn lemma_parting_from_all(ball: BallView, others: Seq<BallView>, restitution: int)
    requires
        forall|j: int| 0 <= j < others.len() ==> ball.parting_from(#[trigger] others[j]),
    ensures
        ball.after_contacts(others, restitution) == ball,
    decreases others.len(),
{
    if others.len() > 0 {
        lemma_parting_from_all(ball, others.drop_last(), restitution);
    }
}

/// Balls that are moving apart are left alone. Where every ball of a game is
/// parting from every other, resolving the contacts changes nothing, however
/// often it is done.
pub proof fn lemma_parting_game_unchanged(game: GameView, times: nat)
    requires
        forall|i: int, j: int|
            0 <= i < game.balls.len() && 0 <= j < game.balls.len() ==> (
            #[trigger] game.balls[i]).parting_from(#[trigger] game.balls[j]),
    ensures
        game.after_collision() == game,
        game.after_collisions(times) == game,
    decreases times,
{
    assert forall|i: int| 0 <= i < game.balls.len() implies (
    #[trigger] game.balls[i]).after_contacts(game.balls, game.field.restitution)
        == game.balls[i] by {
        lemma_parting_from_all(game.balls[i], game.balls, game.field.restitution);
    }
    assert(game.after_collision().balls =~= game.balls);
    if times > 0 {
        lemma_parting_game_unchanged(game, (times - 1) as nat);
    }
}

/// The part along an axis of a velocity is its speed along that axis, and
/// nothing of it runs along the other two.
proof fn lemma_part_along_axis(speed: int, c: int)
    requires
        c != 0,
    ensures
        c * c > 0,
        quotient(c * (speed * c), c * c) == speed,
        quotient(0, c * c) == 0,
{
    let square = c * c;
    assert(square > 0) by (nonlinear_arith)
        requires
            c != 0,
            square == c * c,
    ;
    assert(c * (speed * c) == speed * square) by (nonlinear_arith)
        requires
            square == c * c,
    ;
    assert(0int / square == 0) by (nonlinear_arith)
        requires
            square > 0,
    ;
    if speed >= 0 {
        assert(speed * square >= 0 && (speed * square) / square == speed) by (nonlinear_arith)
            requires
                speed >= 0,
                square > 0,
        ;
    } else {
        assert(speed * square < 0 && -(speed * square) == (-speed) * square && ((-speed) * square)
            / square == -speed) by (nonlinear_arith)
            requires
                speed < 0,
                square > 0,
        ;
    }
}

/// The scalar products with a direction that runs along one axis: `p` is the
/// coordinate of the direction along it, `q` and `r` are the other two.
proof fn lemma_dot_along_axis(a: int, b: int, c: int, p: int, q: int, r: int)
    by (nonlinear_arith)
    requires
        q == 0,
        r == 0,
    ensures
        a * p + b * q + c * r == a * p,
        b * q + a * p + c * r == a * p,
        b * q + c * r + a * p == a * p,
        p * p + q * q + r * r == p * p,
        q * q + p * p + r * r == p * p,
        q * q + r * r + p * p == p * p,
        q * (a * p) == 0,
        r * (a * p) == 0,
{
}

/// A contact along an axis is a bounce. Where the direction runs along one
/// axis and the velocity runs against it, the speed along that axis comes out
/// as a bounce off a wall makes it, and the other two speeds are kept.
pub proof fn lemma_contact_along_axis(velocity: Vec3, c: int, restitution: int)
    requires
        velocity.in_range(),
        0 <= restitution <= UNIT,
    ensures
        velocity.x * c < 0 ==> reflected(velocity, Vec3 { x: c, y: 0, z: 0 }, restitution) == (
        Vec3 { x: bounced(velocity.x, restitution), ..velocity }),
        velocity.y * c < 0 ==> reflected(velocity, Vec3 { x: 0, y: c, z: 0 }, restitution) == (
        Vec3 { y: bounced(velocity.y, restitution), ..velocity }),
        velocity.z * c < 0 ==> reflected(velocity, Vec3 { x: 0, y: 0, z: c }, restitution) == (
        Vec3 { z: bounced(velocity.z, restitution), ..velocity }),
{
    assert(scaled(0, restitution) == 0);
    lemma_bounce(velocity.x, restitution);
    lemma_bounce(velocity.y, restitution);
    lemma_bounce(velocity.z, restitution);
    if velocity.x * c < 0 {
        let d = Vec3 { x: c, y: 0, z: 0 };
        lemma_part_along_axis(velocity.x, c);
        lemma_dot_along_axis(velocity.x, velocity.y, velocity.z, d.x, d.y, d.z);
        assert(normal_part(velocity, d) == (Vec3 { x: velocity.x, y: 0, z: 0 }));
    }
    if velocity.y * c < 0 {
        let d = Vec3 { x: 0, y: c, z: 0 };
        lemma_part_along_axis(velocity.y, c);
        lemma_dot_along_axis(velocity.y, velocity.x, velocity.z, d.y, d.x, d.z);
        assert(normal_part(velocity, d) == (Vec3 { x: 0, y: velocity.y, z: 0 }));
    }
    if velocity.z * c < 0 {
        let d = Vec3 { x: 0, y: 0, z: c };
        lemma_part_along_axis(velocity.z, c);
        lemma_dot_along_axis(velocity.z, velocity.x, velocity.y, d.z, d.x, d.y);
        assert(normal_part(velocity, d) == (Vec3 { x: 0, y: 0, z: velocity.z }));
    }
}

/// Two balls with one center do nothing to each other.
pub proof fn lemma_same_center_unchanged(ball: BallView, other: BallView, restitution: int)
    requires
        ball.center_position == other.center_position,
    ensures
        ball.after_contact(other, restitution) == ball,
{
}

/// A contact moves no ball and changes no radius: only the velocity can change.
pub proof fn lemma_contacts_keep_place(ball: BallView, others: Seq<BallView>, restitution: int)
    ensures
        ball.after_contacts(others, restitution).center_position == ball.center_position,
        ball.after_contacts(others, restitution).radius == ball.radius,
    decreases others.len(),
{
    if others.len() > 0 {
        lemma_contacts_keep_place(ball, others.drop_last(), restitution);
    }
}

/// Resolving the contacts of a game keeps the field, the number of balls, and
/// the place and the size of each: only velocities can change.
pub proof fn lemma_collision_moves_nothing(game: GameView)
    ensures
        game.after_collision().field == game.field,
        game.after_collision().balls.len() == game.balls.len(),
        forall|i: int|
            0 <= i < game.balls.len() ==> (#[trigger] game.after_collision().balls[i]).center_position
                == game.balls[i].center_position && game.after_collision().balls[i].radius
                == game.balls[i].radius,
{
    assert forall|i: int| 0 <= i < game.balls.len() implies (
    #[trigger] game.after_collision().balls[i]).center_position == game.balls[i].center_position
        && game.after_collision().balls[i].radius == game.balls[i].radius by {
        lemma_contacts_keep_place(game.balls[i], game.balls, game.field.restitution);
    }
}

/// What the contacts make of a ball does not depend on how the other balls
/// move: two rows of balls that agree in place and size give the same result.
pub proof fn lemma_contacts_ignore_velocities(
    ball: BallView,
    others: Seq<BallView>,
    moved: Seq<BallView>,
    restitution: int,
)
    requires
        others.len() == moved.len(),
        forall|j: int|
            0 <= j < others.len() ==> (#[trigger] others[j]).center_position
                == moved[j].center_position && others[j].radius == moved[j].radius,
    ensures
        ball.after_contacts(others, restitution) == ball.after_contacts(moved, restitution),
    decreases others.len(),
{
    if others.len() > 0 {
        lemma_contacts_ignore_velocities(
            ball,
            others.drop_last(),
            moved.drop_last(),
            restitution,
        );
        assert(others.last().center_position == moved.last().center_position);
    }
}

/// Both balls of a pair are reflected from the state before the contact, in
/// whichever order they stand: each comes out as one contact with the other,
/// as that one was before, makes it.
pub proof fn lemma_pair_order_immaterial(field: FieldView, a: BallView, b: BallView)
    ensures
        (GameView { field, balls: seq![a, b] }).after_collision().balls == seq![
            a.after_contact(b, field.restitution),
            b.after_contact(a, field.restitution),
        ],
        (GameView { field, balls: seq![b, a] }).after_collision().balls == seq![
            b.after_contact(a, field.restitution),
            a.after_contact(b, field.restitution),
        ],
{
    lemma_pair_contacts(a, b, field.restitution);
    lemma_pair_contacts(b, a, field.restitution);
    assert((GameView { field, balls: seq![a, b] }).after_collision().balls =~= seq![
        a.after_contact(b, field.restitution),
        b.after_contact(a, field.restitution),
    ]);
    assert((GameView { field, balls: seq![b, a] }).after_collision().balls =~= seq![
        b.after_contact(a, field.restitution),
        a.after_contact(b, field.restitution),
    ]);
}

/// What is drawn is what is there. The box of a field has its center at the
/// center of the domain and reaches from wall to wall on each axis; the sphere
/// of a ball has the ball's center and radius; and a game is drawn as its
/// field, then its balls in their order.
pub proof fn lemma_drawn_as_it_is(game: GameView)
    ensures
        game.to_gm().len() == game.balls.len() + 1,
        game.to_gm()[0] == game.field.to_gm(),
        forall|i: int| 0 <= i < game.balls.len() ==> game.to_gm()[i + 1] == game.balls[i].to_gm(),
        game.field.to_gm().geometry.extent() == (Vec3 {
            x: game.field.x_max - game.field.x_min,
            y: game.field.y_max - game.field.y_min,
            z: game.field.z_max - game.field.z_min,
        }),
        game.field.to_gm().geometry.center_doubled() == (Vec3 {
            x: game.field.x_min + game.field.x_max,
            y: game.field.y_min + game.field.y_max,
            z: game.field.z_min + game.field.z_max,
        }),
        forall|i: int|
            0 <= i < game.balls.len() ==> (#[trigger] game.balls[i]).to_gm().geometry == (
            Shape::Sphere { center: game.balls[i].center_position, radius: game.balls[i].radius }),
{
}

/// In a game of two, each ball comes out as one contact with the other makes
/// it, whether it stands first or second.
proof fn lemma_pair_contacts(a: BallView, b: BallView, restitution: int)
    ensures
        a.after_contacts(seq![a, b], restitution) == a.after_contact(b, restitution),
        a.after_contacts(seq![b, a], restitution) == a.after_contact(b, restitution),
{
    let first = seq![a, b];
    let second = seq![b, a];
    assert(first.drop_last() =~= seq![a]);
    assert(second.drop_last() =~= seq![b]);
    assert(seq![a].drop_last() =~= Seq::<BallView>::empty());
    assert(seq![b].drop_last() =~= Seq::<BallView>::empty());
    assert(a.after_contacts(Seq::<BallView>::empty(), restitution) == a);
    assert(a.after_contacts(seq![a], restitution) == a);
    assert(a.after_contacts(seq![b], restitution) == a.after_contact(b, restitution));
}

} // verus!
