//! The `rot` parameter: the angle by which the picture is turned.

use vstd::prelude::*;

verus! {

/// The number of degrees in a full turn.
pub const FULL_TURN: u16 = 360;

/// An angle of rotation, clockwise and brought into the range from 0 up to,
/// but not including, a full turn.
#[derive(Debug, PartialEq, Eq, Clone, Copy, Structural)]
pub enum Rotate {
    /// A whole number of degrees.
    Whole(u16),
    /// An angle that is no whole number of degrees.
    Fractional,
}

impl Rotate {
    /// Whether the angle lies in the range that a normalised angle lies in.
    pub open spec fn is_normalized(&self) -> bool {
        match self {
            Rotate::Whole(degrees) => *degrees < FULL_TURN,
            Rotate::Fractional => true,
        }
    }

    /// The angle of `degrees` whole degrees, counted modulo a full turn: a
    /// negative angle turns the other way.
    pub fn from_degrees(degrees: i64) -> (angle: Rotate)
        ensures
            angle == Rotate::Whole((degrees as int % 360) as u16),
            angle.is_normalized(),
    {
        let rest: i64 = degrees % 360;
        if rest < 0 {
            Rotate::Whole((rest + 360) as u16)
        } else {
            Rotate::Whole(rest as u16)
        }
    }
}

} // verus!
