//! The objects of the game world as the guest sees them: plain values that
//! were read from the host, and the requests that the guest makes of it.

pub mod event_log;
pub mod room;
pub mod structure_controller;
pub mod structure_lab;
