//! The domain in which the balls move.
use vstd::prelude::*;
use rand::rngs::ThreadRng;
use crate::fixed::{LIMIT, UNIT};
use crate::random::{gen_range, thread_rng};

verus! {

/// What a [`Field`] says of the world: the walls, the pull of gravity and how
/// much speed a bounce keeps.
pub struct FieldView {
    pub x_min: int,
    pub x_max: int,
    pub y_min: int,
    pub y_max: int,
    pub z_min: int,
    pub z_max: int,
    /// The speed that each tick adds downward.
    pub gravity: int,
    /// The part of its speed that a ball keeps across a bounce, `UNIT` for all of it.
    pub restitution: int,
}

impl FieldView {
    /// On each axis the lower wall lies below the upper one, both strictly
    /// inside the scalar range; gravity does not push upward and is
    /// representable; a bounce keeps between nothing and everything.
    pub open spec fn wf(self) -> bool {
        &&& -LIMIT < self.x_min < self.x_max < LIMIT
        &&& -LIMIT < self.y_min < self.y_max < LIMIT
        &&& -LIMIT < self.z_min < self.z_max < LIMIT
        &&& 0 <= self.gravity <= LIMIT
        &&& 0 <= self.restitution <= UNIT
    }

    /// Whether `x` lies beyond one of the two walls that are square to the `x` axis.
    pub open spec fn beyond_x(self, x: int) -> bool {
        x < self.x_min || x > self.x_max
    }

    /// Whether `z` lies beyond one of the two walls that are square to the `z` axis.
    pub open spec fn beyond_z(self, z: int) -> bool {
        z < self.z_min || z > self.z_max
    }

    /// Whether the height `y` lies below the floor. Nothing bounds it above.
    pub open spec fn below_floor(self, y: int) -> bool {
        y < self.y_min
    }

    /// The field of one unit to each side of the origin, with a weak gravity
    /// and bounces that keep four fifths of the speed.
    pub open spec fn standard() -> FieldView {
        FieldView {
            x_min: -(UNIT as int),
            x_max: UNIT as int,
            y_min: -(UNIT as int),
            y_max: UNIT as int,
            z_min: -(UNIT as int),
            z_max: UNIT as int,
            gravity: 100,
            restitution: 800_000,
        }
    }
}

/// The numbers of a field, which are well formed wherever they exist.
#[derive(Clone, Copy)]
struct Numbers {
    x_min: i64,
    x_max: i64,
    z_min: i64,
    z_max: i64,
    y_min: i64,
    y_max: i64,
    gravitational_acceleration: i64,
    elasticity: i64,
}

impl Numbers {
    spec fn view(self) -> FieldView {
        FieldView {
            x_min: self.x_min as int,
            x_max: self.x_max as int,
            y_min: self.y_min as int,
            y_max: self.y_max as int,
            z_min: self.z_min as int,
            z_max: self.z_max as int,
            gravity: self.gravitational_acceleration as int,
            restitution: self.elasticity as int,
        }
    }

    #[verifier::type_invariant]
    spec fn wf(self) -> bool {
        self.view().wf()
    }
}

/// The domain of a simulation, with the random source that places new balls.
///
/// Every field that exists is well formed: each function that reads one says so.
pub struct Field {
    numbers: Numbers,
    rng: ThreadRng,
}

impl View for Field {
    type V = FieldView;

    closed spec fn view(&self) -> FieldView {
        self.numbers.view()
    }
}

impl Field {
    /// The field with the given walls, gravity and restitution, if they make a
    /// well-formed field; nothing otherwise.
    pub fn new(
        x_min: i64,
        x_max: i64,
        y_min: i64,
        y_max: i64,
        z_min: i64,
        z_max: i64,
        gravity: i64,
        restitution: i64,
    ) -> (r: Option<Field>)
        ensures
            r is Some <==> (FieldView {
                x_min: x_min as int,
                x_max: x_max as int,
                y_min: y_min as int,
                y_max: y_max as int,
                z_min: z_min as int,
                z_max: z_max as int,
                gravity: gravity as int,
                restitution: restitution as int,
            }).wf(),
            r is Some ==> r->0@ == (FieldView {
                x_min: x_min as int,
                x_max: x_max as int,
                y_min: y_min as int,
                y_max: y_max as int,
                z_min: z_min as int,
                z_max: z_max as int,
                gravity: gravity as int,
                restitution: restitution as int,
            }),
    {
        if -LIMIT < x_min && x_min < x_max && x_max < LIMIT && -LIMIT < y_min && y_min < y_max
            && y_max < LIMIT && -LIMIT < z_min && z_min < z_max && z_max < LIMIT && 0 <= gravity
            && gravity <= LIMIT && 0 <= restitution && restitution <= UNIT {
            Some(
                Field {
                    numbers: Numbers {
                        x_min,
                        x_max,
                        z_min,
                        z_max,
                        y_min,
                        y_max,
                        gravitational_acceleration: gravity,
                        elasticity: restitution,
                    },
                    rng: thread_rng(),
                },
            )
        } else {
            None
        }
    }

    /// Draws a number from `low` up to, but not including, `high` from the
    /// field's random source. The field itself stays as it is.
    pub(crate) fn draw(&mut self, low: i64, high: i64) -> (r: i64)
        requires
            low < high,
        ensures
            low <= r < high,
            final(self)@ == old(self)@,
    {
        gen_range(&mut self.rng, low, high)
    }

    /// The lower wall in `x`.
    pub fn x_min(&self) -> (r: i64)
        ensures
            r == self@.x_min,
            self@.wf(),
    {
        proof {
            use_type_invariant(&self.numbers);
        }
        self.numbers.x_min
    }

    /// The upper wall in `x`.
    pub fn x_max(&self) -> (r: i64)
        ensures
            r == self@.x_max,
            self@.wf(),
    {
        proof {
            use_type_invariant(&self.numbers);
        }
        self.numbers.x_max
    }

    /// The floor.
    pub fn y_min(&self) -> (r: i64)
        ensures
            r == self@.y_min,
            self@.wf(),
    {
        proof {
            use_type_invariant(&self.numbers);
        }
        self.numbers.y_min
    }

    /// The upper end of the domain in `y`, which is drawn but stops no ball.
    pub fn y_max(&self) -> (r: i64)
        ensures
            r == self@.y_max,
            self@.wf(),
    {
        proof {
            use_type_invariant(&self.numbers);
        }
        self.numbers.y_max
    }

    /// The lower wall in `z`.
    pub fn z_min(&self) -> (r: i64)
        ensures
            r == self@.z_min,
            self@.wf(),
    {
        proof {
            use_type_invariant(&self.numbers);
        }
        self.numbers.z_min
    }

    /// The upper wall in `z`.
    pub fn z_max(&self) -> (r: i64)
        ensures
            r == self@.z_max,
            self@.wf(),
    {
        proof {
            use_type_invariant(&self.numbers);
        }
        self.numbers.z_max
    }

    /// The speed that each tick adds downward.
    pub fn gravitational_acceleration(&self) -> (r: i64)
        ensures
            r == self@.gravity,
            self@.wf(),
    {
        proof {
            use_type_invariant(&self.numbers);
        }
        self.numbers.gravitational_acceleration
    }

    /// The part of its speed that a ball keeps across a bounce, `UNIT` for all of it.
    pub fn elasticity(&self) -> (r: i64)
        ensures
            r == self@.restitution,
            self@.wf(),
    {
        proof {
            use_type_invariant(&self.numbers);
        }
        self.numbers.elasticity
    }
}

impl Default for Field {
    /// The standard field.
    fn default() -> (r: Field)
        ensures
            r@ == FieldView::standard(),
    {
        Field {
            numbers: Numbers {
                x_min: -UNIT,
                x_max: UNIT,
                z_min: -UNIT,
                z_max: UNIT,
                y_min: -UNIT,
                y_max: UNIT,
                gravitational_acceleration: 100,
                elasticity: 800_000,
            },
            rng: thread_rng(),
        }
    }
}

} // verus!
