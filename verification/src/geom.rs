//! Fixed-point world geometry.
//!
//! World-space coordinates are held in milli-world-units: one world unit
//! is `1000` in this scale.  All behavior rules are stated and proved
//! over these plain integers.

use vstd::prelude::*;

verus! {

/// A 2D world-space vector in milli-world-units.
///
/// `WorldVec { x: 0, y: 0 }` doubles as the "no destination" sentinel,
/// as the original `ZERO` destination does.
#[derive(Clone, Copy, Debug, PartialEq, Eq, Structural)]
pub struct WorldVec {
    pub x: i32,
    pub y: i32,
}

impl WorldVec {
    /// The zero vector, used as the "no destination / idle-eligible" sentinel.
    pub fn zero() -> (r: WorldVec)
        ensures
            r == (WorldVec { x: 0, y: 0 }),
    {
        WorldVec { x: 0, y: 0 }
    }

    pub open spec fn is_zero(self) -> bool {
        self.x == 0 && self.y == 0
    }

    /// Tests the "no destination" sentinel.
    pub fn eq_zero(&self) -> (r: bool)
        ensures
            r == self.is_zero(),
    {
        self.x == 0 && self.y == 0
    }
}

} // verus!
