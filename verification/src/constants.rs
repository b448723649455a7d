//! Constants of the game: kinds of things and their numbers.

pub mod numbers;
pub mod small_enums;
pub mod types;
