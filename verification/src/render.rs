//! What a renderer is told to draw: shapes as plain values, each with the
//! color of its see-through material. Meshes and drawing are the renderer's.
use vstd::prelude::*;
use crate::ball::{Ball, BallView};
use crate::field::{Field, FieldView};
use crate::vector::{Vec3, Vector3};

verus! {

/// A color with its opacity, each channel from 0 to 255.
#[derive(Clone, Copy, Debug, PartialEq, Eq, Structural)]
pub struct Color {
    pub r: u8,
    pub g: u8,
    pub b: u8,
    pub a: u8,
}

/// The grey, half see-through, of the field's box.
pub open spec fn field_color() -> Color {
    Color { r: 128, g: 128, b: 128, a: 128 }
}

/// The white, mostly opaque, of a ball.
pub open spec fn ball_color() -> Color {
    Color { r: 255, g: 255, b: 255, a: 200 }
}

/// A shape over the integers: what a [`Geometry`] stands for.
pub enum Shape {
    /// The box between two opposite corners, its sides along the axes. Its
    /// center lies midway between the corners, and its extent on each axis is
    /// their difference.
    Cuboid { min: Vec3, max: Vec3 },
    Sphere { center: Vec3, radius: int },
}

impl Shape {
    /// How far the shape reaches along each axis: a box from corner to
    /// corner, a sphere across.
    pub open spec fn extent(self) -> Vec3 {
        match self {
            Shape::Cuboid { min, max } => max.minus(min),
            Shape::Sphere { center, radius } => Vec3 { x: 2 * radius, y: 2 * radius, z: 2 * radius },
        }
    }

    /// Twice the center of the shape: the center of a box can lie halfway
    /// between two scalars, and its double cannot.
    pub open spec fn center_doubled(self) -> Vec3 {
        match self {
            Shape::Cuboid { min, max } => min.plus(max),
            Shape::Sphere { center, radius } => center.plus(center),
        }
    }
}

/// A shape to draw.
#[derive(Clone, Copy, Debug, PartialEq, Eq)]
pub enum Geometry {
    /// The box between two opposite corners, its sides along the axes.
    Cuboid { min: Vector3, max: Vector3 },
    Sphere { center: Vector3, radius: i64 },
}

impl View for Geometry {
    type V = Shape;

    open spec fn view(&self) -> Shape {
        match *self {
            Geometry::Cuboid { min, max } => Shape::Cuboid { min: min@, max: max@ },
            Geometry::Sphere { center, radius } => Shape::Sphere {
                center: center@,
                radius: radius as int,
            },
        }
    }
}

/// A shape and its color, over the integers: what a [`Gm`] stands for.
pub struct GmView {
    pub geometry: Shape,
    pub material: Color,
}

/// A shape to draw, and the color of its material.
#[derive(Clone, Copy, Debug, PartialEq, Eq)]
pub struct Gm {
    pub geometry: Geometry,
    pub material: Color,
}

impl View for Gm {
    type V = GmView;

    open spec fn view(&self) -> GmView {
        GmView { geometry: self.geometry@, material: self.material }
    }
}

impl FieldView {
    /// The box that spans the domain from wall to wall, in the field's color.
    pub open spec fn to_gm(self) -> GmView {
        GmView {
            geometry: Shape::Cuboid {
                min: Vec3 { x: self.x_min, y: self.y_min, z: self.z_min },
                max: Vec3 { x: self.x_max, y: self.y_max, z: self.z_max },
            },
            material: field_color(),
        }
    }
}

impl BallView {
    /// The sphere of the ball, in the balls' color.
    pub open spec fn to_gm(self) -> GmView {
        GmView {
            geometry: Shape::Sphere { center: self.center_position, radius: self.radius },
            material: ball_color(),
        }
    }
}

impl Field {
    /// The field as a shape to draw.
    pub fn to_gm(&self) -> (r: Gm)
        ensures
            r@ == self@.to_gm(),
    {
        Gm {
            geometry: Geometry::Cuboid {
                min: Vector3::new(self.x_min(), self.y_min(), self.z_min()),
                max: Vector3::new(self.x_max(), self.y_max(), self.z_max()),
            },
            material: Color { r: 128, g: 128, b: 128, a: 128 },
        }
    }
}

impl Ball {
    /// The ball as a shape to draw.
    pub fn to_gm(&self) -> (r: Gm)
        ensures
            r@ == self@.to_gm(),
    {
        Gm {
            geometry: Geometry::Sphere { center: self.center_position(), radius: self.radius() },
            material: Color { r: 255, g: 255, b: 255, a: 200 },
        }
    }
}

} // verus!
