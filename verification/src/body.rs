//! Bodies: point masses with a position, a velocity and a display colour.

use vstd::prelude::*;
use crate::scalar::Scalar;

verus! {

/// A point or a displacement in the plane.
#[derive(Clone, Copy, PartialEq, Eq, Structural, Debug)]
pub struct Vector2 {
    pub x: Scalar,
    pub y: Scalar,
}

impl Vector2 {
    /// The vector whose two components are positive zero.
    pub open spec fn zero() -> Vector2 {
        Vector2 { x: Scalar::zero(), y: Scalar::zero() }
    }

    /// The vector with the given components.
    pub fn new(x: Scalar, y: Scalar) -> (v: Vector2)
        ensures
            v == (Vector2 { x, y }),
    {
        Vector2 { x, y }
    }

    /// The vector whose two components are positive zero.
    pub fn new_zero() -> (v: Vector2)
        ensures
            v == Vector2::zero(),
    {
        Vector2 { x: Scalar::new_zero(), y: Scalar::new_zero() }
    }
}

/// A display colour, one byte per channel.
#[derive(Clone, Copy, PartialEq, Eq, Structural, Debug)]
pub struct Color {
    pub red: u8,
    pub green: u8,
    pub blue: u8,
}

/// Where a body is and how fast it moves: what one physics step computes
/// for each body.
#[derive(Clone, Copy, PartialEq, Eq, Structural, Debug)]
pub struct Motion {
    pub pos: Vector2,
    pub vel: Vector2,
}

/// A point mass.
///
/// `acc` is scratch space for the forces of one step. Between steps it is
/// zero, and the simulation only ever holds bodies for which that is so.
#[derive(Clone, Copy, PartialEq, Eq, Structural, Debug)]
pub struct Body {
    pub pos: Vector2,
    pub vel: Vector2,
    pub acc: Vector2,
    pub mass: Scalar,
    pub color: Color,
}

impl Body {
    /// The body may take part in a simulation: its mass compares greater
    /// than zero.
    pub open spec fn has_mass(self) -> bool {
        self.mass.is_positive()
    }

    /// The body is as the simulation holds it between two steps: it has
    /// mass, and its accumulated acceleration is zero.
    pub open spec fn at_rest(self) -> bool {
        self.has_mass() && self.acc == Vector2::zero()
    }

    /// The same body with its accumulated acceleration cleared.
    pub open spec fn settled(self) -> Body {
        Body { acc: Vector2::zero(), ..self }
    }

    /// The same body held at `point`: it sits there and does not move.
    pub open spec fn held_at(self, point: Vector2) -> Body {
        Body { pos: point, vel: Vector2::zero(), ..self }
    }

    /// The same body after a physics step that left it with `motion`: mass
    /// and colour stay, and the accumulated acceleration is cleared.
    pub open spec fn moved(self, motion: Motion) -> Body {
        Body { pos: motion.pos, vel: motion.vel, acc: Vector2::zero(), ..self }
    }

    /// A body with the given position, velocity, mass and colour, and no
    /// accumulated acceleration.
    pub fn new(pos: Vector2, vel: Vector2, mass: Scalar, color: Color) -> (body: Body)
        ensures
            body == (Body { pos, vel, acc: Vector2::zero(), mass, color }),
    {
        Body { pos, vel, acc: Vector2::new_zero(), mass, color }
    }

    /// Whether the mass compares greater than zero.
    pub fn check_mass(&self) -> (ok: bool)
        ensures
            ok == self.has_mass(),
    {
        self.mass.exceeds_zero()
    }

    /// Clears the accumulated acceleration.
    pub fn settle(self) -> (body: Body)
        ensures
            body == self.settled(),
    {
        Body { pos: self.pos, vel: self.vel, acc: Vector2::new_zero(), mass: self.mass, color: self.color }
    }

    /// Puts the body at `point` and stops it.
    pub fn hold_at(self, point: Vector2) -> (body: Body)
        ensures
            body == self.held_at(point),
    {
        Body { pos: point, vel: Vector2::new_zero(), acc: self.acc, mass: self.mass, color: self.color }
    }

    /// Gives the body the position and velocity of `motion` and clears its
    /// accumulated acceleration.
    pub fn advance(self, motion: Motion) -> (body: Body)
        ensures
            body == self.moved(motion),
    {
        Body { pos: motion.pos, vel: motion.vel, acc: Vector2::new_zero(), mass: self.mass, color: self.color }
    }
}

} // verus!
