//! A small rigid-body simulation in fixed-point arithmetic: balls fall under
//! gravity inside a box, bounce off its walls and floor, and are reflected off
//! one another.
//!
//! Every scalar is an integer number of millionths of a world unit, so a step
//! of the simulation is exact and repeatable, and what it does is stated over
//! the integers: see [`ball::BallView::after_frame`],
//! [`ball::BallView::after_contact`] and the contracts of [`Game`].
pub mod ball;
pub mod field;
pub mod fixed;
pub mod game;
pub mod laws;
mod random;
pub mod render;
pub mod vector;

pub use ball::Ball;
pub use field::Field;
pub use game::Game;
pub use vector::Vector3;
