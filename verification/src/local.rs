//! Data that lives entirely on the guest side of the game boundary.

pub mod cost_matrix;
pub mod room_position;
