//! What a room controller tells about itself.

use vstd::prelude::*;

verus! {

/// A claim that another player has laid on a controller.
#[derive(Clone, Debug, PartialEq, Eq)]
pub struct Reservation {
    pub username: String,
    pub ticks_to_end: u32,
}

/// A message that a player has left on a controller.
#[derive(Clone, Debug, PartialEq, Eq)]
pub struct Sign {
    pub username: String,
    pub text: String,
    pub time: u32,
    pub datetime: String,
}

} // verus!
