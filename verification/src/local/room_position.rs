//! A tile of a room.

use vstd::prelude::*;

pub mod pair_utils;

verus! {

/// A tile inside a room, by its two coordinates.
///
/// The view of a position is the pair `(x, y)`. Both coordinates of a
/// position are below 50.
#[derive(Clone, Copy, Debug, PartialEq, Eq, Hash)]
pub struct Position {
    x: u8,
    y: u8,
}

impl View for Position {
    type V = (u8, u8);

    closed spec fn view(&self) -> (u8, u8) {
        (self.x, self.y)
    }
}

impl Position {
    #[verifier::type_invariant]
    spec fn inside_room(self) -> bool {
        self.x < 50 && self.y < 50
    }

    /// The position of tile `(x, y)`, if the room has such a tile.
    pub fn new(x: u32, y: u32) -> (pos: Option<Position>)
        ensures
            x < 50 && y < 50 <==> pos is Some,
            pos matches Some(p) ==> p@.0 == x && p@.1 == y,
    {
        if x < 50 && y < 50 {
            Some(Position { x: x as u8, y: y as u8 })
        } else {
            None
        }
    }

    /// The first coordinate.
    pub fn x(&self) -> (x: u32)
        ensures
            x == self@.0,
            x < 50,
    {
        proof {
            use_type_invariant(self);
        }
        self.x as u32
    }

    /// The second coordinate.
    pub fn y(&self) -> (y: u32)
        ensures
            y == self@.1,
            y < 50,
    {
        proof {
            use_type_invariant(self);
        }
        self.y as u32
    }

    /// Both coordinates as bytes, the form in which a cost matrix takes them.
    pub fn tile(&self) -> (pair: (u8, u8))
        ensures
            pair == self@,
            pair.0 < 50,
            pair.1 < 50,
    {
        proof {
            use_type_invariant(self);
        }
        (self.x, self.y)
    }
}

} // verus!
