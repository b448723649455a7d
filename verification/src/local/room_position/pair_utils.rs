//! Coordinate pairs of a position.

use crate::local::room_position::Position;
use vstd::prelude::*;

verus! {

impl Position {
    /// Both coordinates as a pair of unsigned integers.
    pub fn coords(&self) -> (pair: (u32, u32))
        ensures
            pair.0 == self@.0,
            pair.1 == self@.1,
            pair.0 < 50,
            pair.1 < 50,
    {
        (self.x(), self.y())
    }

    /// Both coordinates as a pair of signed integers.
    pub fn coords_signed(&self) -> (pair: (i32, i32))
        ensures
            pair.0 == self@.0,
            pair.1 == self@.1,
            0 <= pair.0 < 50,
            0 <= pair.1 < 50,
    {
        (self.x() as i32, self.y() as i32)
    }
}

} // verus!
