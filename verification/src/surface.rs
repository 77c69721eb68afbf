//! What a frame is made of: the commands that a surface carries out.

use vstd::prelude::*;

verus! {

/// A colour by its red, green and blue parts and its opacity, each from
/// zero to one in millionths.
#[derive(Clone, Copy, Debug, PartialEq, Eq)]
pub struct Color {
    pub red: i64,
    pub green: i64,
    pub blue: i64,
    pub alpha: i64,
}

/// The colour that a surface is cleared to.
#[verifier::allow_in_spec]
pub fn background() -> Color
    returns
        (Color { red: 1_000_000, green: 500_000, blue: 500_000, alpha: 1_000_000 }),
{
    Color { red: 1_000_000, green: 500_000, blue: 500_000, alpha: 1_000_000 }
}

/// The colour that the particles are drawn in.
#[verifier::allow_in_spec]
pub fn red() -> Color
    returns
        (Color { red: 1_000_000, green: 0, blue: 0, alpha: 1_000_000 }),
{
    Color { red: 1_000_000, green: 0, blue: 0, alpha: 1_000_000 }
}

/// Half a turn: pi, rounded to the millionth.
pub const PI: i64 = 3_141_593;

/// A full turn, at which the arc of a particle ends: two times [`PI`].
pub const FULL_TURN: i64 = 2 * PI;

/// A circle on the surface: its centre and its radius, in pixels.
#[derive(Clone, Copy, Debug, PartialEq, Eq)]
pub struct Circle {
    pub x: i64,
    pub y: i64,
    pub radius: i64,
}

/// One thing for a surface to do.
#[derive(Clone, Copy, Debug, PartialEq, Eq)]
pub enum Command {
    /// Fill the whole surface with one colour.
    Clear { color: Color },
    /// Draw the part of `circle` from the angle `start` to the angle `end`,
    /// with a stroke whose half width is the circle's radius.
    Arc { color: Color, circle: Circle, start: i64, end: i64 },
}

} // verus!
