//! Local, engine-independent data types for the Screeps game world.

pub mod config;
pub mod constants;
pub mod game;
pub mod local;
pub mod objects;
pub mod text;
