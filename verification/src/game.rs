//! The simulation: one field and the balls in it.
use vstd::prelude::*;
use crate::ball::{Ball, BallView};
use crate::field::{Field, FieldView};
use crate::fixed::{saturated, UNIT};
use crate::render::{Gm, GmView};


verus! {

/// What a [`Game`] stands for: the field, and the balls in the order in which
/// they were put in.
pub struct GameView {
    pub field: FieldView,
    pub balls: Seq<BallView>,
}

/// What each of a row of balls stands for.
pub open spec fn views(balls: Seq<Ball>) -> Seq<BallView> {
    Seq::new(balls.len(), |i: int| balls[i]@)
}

impl GameView {
    /// The game with `ball` put in behind the others.
    pub open spec fn with_ball(self, ball: BallView) -> GameView {
        GameView { field: self.field, balls: self.balls.push(ball) }
    }

    /// The game one tick later: each ball has moved on, by itself.
    pub open spec fn after_frame(self) -> GameView {
        GameView {
            field: self.field,
            balls: Seq::new(self.balls.len(), |i: int| self.balls[i].after_frame(self.field)),
        }
    }

    /// The game after the contacts between its balls are resolved: each ball
    /// has met every ball of the game as it stood before, itself included.
    pub open spec fn after_collision(self) -> GameView {
        GameView {
            field: self.field,
            balls: Seq::new(
                self.balls.len(),
                |i: int| self.balls[i].after_contacts(self.balls, self.field.restitution),
            ),
        }
    }

    /// The shapes to draw: the field's box, then one sphere for each ball.
    pub open spec fn to_gm(self) -> Seq<GmView> {
        seq![self.field.to_gm()] + Seq::new(self.balls.len(), |i: int| self.balls[i].to_gm())
    }
}

/// A simulation: one field and the balls in it.
pub struct Game {
    field: Field,
    balls: Vec<Ball>,
}

impl View for Game {
    type V = GameView;

    closed spec fn view(&self) -> GameView {
        GameView { field: self.field@, balls: views(self.balls@) }
    }
}

impl Game {
    /// The game in `field` with the given balls, in their order.
    pub fn new(field: Field, balls: Vec<Ball>) -> (r: Game)
        ensures
            r@ == (GameView { field: field@, balls: views(balls@) }),
    {
        Game { field, balls }
    }

    /// The field of the game.
    pub fn field(&self) -> (r: &Field)
        ensures
            r@ == self@.field,
    {
        &self.field
    }

    /// The balls of the game, in the order in which they were put in.
    pub fn balls(&self) -> (r: &Vec<Ball>)
        ensures
            views(r@) == self@.balls,
    {
        &self.balls
    }

    /// Puts a new ball in at a place drawn at random: less than half a unit
    /// from the vertical axis in `x` and in `z`, at the standard height.
    pub fn put_ball(&mut self)
        ensures
            final(self)@ == old(self)@.with_ball(final(self)@.balls.last()),
            final(self)@.balls.last() == BallView::spawned(
                final(self)@.balls.last().center_position.x,
                final(self)@.balls.last().center_position.z,
            ),
            -(UNIT / 2) <= final(self)@.balls.last().center_position.x < UNIT / 2,
            -(UNIT / 2) <= final(self)@.balls.last().center_position.z < UNIT / 2,
    {
        let x = self.field.draw(0, UNIT) - UNIT / 2;
        let z = self.field.draw(0, UNIT) - UNIT / 2;
        self.put_ball_at(x, z);
    }

    /// Puts a new ball in at `(x, z)` on the horizontal plane, each saturated.
    pub fn put_ball_at(&mut self, x: i64, z: i64)
        ensures
            final(self)@ == old(self)@.with_ball(
                BallView::spawned(saturated(x as int), saturated(z as int)),
            ),
    {
        let ball = Ball::spawned(x, z);
        self.balls.push(ball);
        assert(self@.balls =~= old(self)@.balls.push(ball@));
    }

    /// Moves every ball through one tick.
    pub fn do_frame(&mut self)
        ensures
            final(self)@ == old(self)@.after_frame(),
    {
        let n = self.balls.len();
        let mut i: usize = 0;
        while i < n
            invariant
                i <= n,
                n == self.balls@.len(),
                n == old(self).balls@.len(),
                self.field@ == old(self).field@,
                forall|k: int|
                    0 <= k < i ==> (#[trigger] self.balls@[k])@ == old(self).balls@[k]@.after_frame(
                        self.field@,
                    ),
                forall|k: int| i <= k < n ==> #[trigger] self.balls@[k] == old(self).balls@[k],
            decreases n - i,
        {
            let mut ball = self.balls[i];
            ball.do_frame(&self.field);
            self.balls.set(i, ball);
            i += 1;
        }
        assert(self@.balls =~= old(self)@.after_frame().balls);
    }

    /// Resolves the contacts between the balls. Every ball meets every ball
    /// as it stood before the call, so the order of the balls gives none of
    /// them an advantage.
    pub fn do_collision(&mut self)
        ensures
            final(self)@ == old(self)@.after_collision(),
    {
        let ball_clones = self.snapshot();
        let n = self.balls.len();
        let mut i: usize = 0;
        while i < n
            invariant
                i <= n,
                n == self.balls@.len(),
                n == old(self).balls@.len(),
                ball_clones@ == old(self).balls@,
                self.field@ == old(self).field@,
                forall|k: int|
                    0 <= k < i ==> (#[trigger] self.balls@[k])@ == old(self)@.balls[k].after_contacts(
                        old(self)@.balls,
                        self.field@.restitution,
                    ),
                forall|k: int| i <= k < n ==> #[trigger] self.balls@[k] == old(self).balls@[k],
            decreases n - i,
        {
            let mut ball = self.balls[i];
            let ghost before = ball@;
            let mut j: usize = 0;
            while j < n
                invariant
                    j <= n,
                    n == ball_clones@.len(),
                    ball_clones@ == old(self).balls@,
                    self.field@ == old(self).field@,
                    ball@ == before.after_contacts(
                        old(self)@.balls.take(j as int),
                        self.field@.restitution,
                    ),
                decreases n - j,
            {
                ball.do_collision(&ball_clones[j], &self.field);
                proof {
                    let met = old(self)@.balls.take(j + 1);
                    assert(met.drop_last() =~= old(self)@.balls.take(j as int));
                    assert(met.last() == ball_clones@[j as int]@);
                }
                j += 1;
            }
            assert(old(self)@.balls.take(n as int) =~= old(self)@.balls);
            self.balls.set(i, ball);
            i += 1;
        }
        assert(self@.balls =~= old(self)@.after_collision().balls);
    }

    /// A copy of the balls as they stand.
    fn snapshot(&self) -> (r: Vec<Ball>)
        ensures
            r@ == self.balls@,
    {
        let mut copies: Vec<Ball> = Vec::new();
        let mut i: usize = 0;
        while i < self.balls.len()
            invariant
                i <= self.balls@.len(),
                copies@ == self.balls@.take(i as int),
            decreases self.balls@.len() - i,
        {
            copies.push(self.balls[i]);
            assert(self.balls@.take(i + 1) =~= self.balls@.take(i as int).push(self.balls@[i as int]));
            i += 1;
        }
        assert(self.balls@.take(self.balls@.len() as int) =~= self.balls@);
        copies
    }

    /// The shapes to draw: the field's box, then one sphere for each ball.
    /// Nothing changes.
    pub fn to_gm(&self) -> (r: Vec<Gm>)
        ensures
            r@.len() == self@.to_gm().len(),
            forall|i: int| 0 <= i < r@.len() ==> (#[trigger] r@[i])@ == self@.to_gm()[i],
    {
        let mut return_vec: Vec<Gm> = Vec::new();
        return_vec.push(self.field.to_gm());
        let mut i: usize = 0;
        while i < self.balls.len()
            invariant
                i <= self.balls@.len(),
                return_vec@.len() == i + 1,
                return_vec@[0]@ == self@.field.to_gm(),
                forall|k: int|
                    0 <= k < i ==> (#[trigger] return_vec@[k + 1])@ == self@.balls[k].to_gm(),
            decreases self.balls@.len() - i,
        {
            return_vec.push(self.balls[i].to_gm());
            i += 1;
        }
        assert forall|i: int| 0 <= i < return_vec@.len() implies (#[trigger] return_vec@[i])@
            == self@.to_gm()[i] by {
            if i > 0 {
                assert(return_vec@[(i - 1) + 1]@ == self@.balls[i - 1].to_gm());
            }
        }
        return_vec
    }
}

impl Default for Game {
    /// The standard field, with no ball in it.
    fn default() -> (r: Game)
        ensures
            r@ == (GameView { field: FieldView::standard(), balls: Seq::empty() }),
    {
        let r = Game { field: Field::default(), balls: Vec::new() };
        assert(r@.balls =~= Seq::empty());
        r
    }
}

} // verus!
