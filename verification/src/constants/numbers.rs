//! Plain numbers that the game rules fix.

use vstd::prelude::*;

verus! {

/// Hit points of a new spawn.
pub const SPAWN_HITS: u32 = 5_000;

/// Hit points of a new extension.
pub const EXTENSION_HITS: u32 = 1_000;

/// Hit points of a new road.
pub const ROAD_HITS: u32 = 5_000;

/// Hit points of a new wall.
pub const WALL_HITS: u32 = 1;

/// Hit points of a new rampart.
pub const RAMPART_HITS: u32 = 1;

/// Hit points of a new link.
pub const LINK_HITS: u32 = 1_000;

/// Hit points of a new storage.
pub const STORAGE_HITS: u32 = 10_000;

/// Hit points of a new tower.
pub const TOWER_HITS: u32 = 3_000;

/// Hit points of a new observer.
pub const OBSERVER_HITS: u32 = 500;

/// Hit points of a power bank.
pub const POWER_BANK_HITS: u32 = 2_000_000;

/// Hit points of a new power spawn.
pub const POWER_SPAWN_HITS: u32 = 5_000;

/// Hit points of a new lab.
pub const LAB_HITS: u32 = 500;

/// Hit points of a new container.
pub const CONTAINER_HITS: u32 = 250_000;

/// Hit points of a new nuker.
pub const NUKER_HITS: u32 = 1_000;

/// Hit points of a new factory.
pub const FACTORY_HITS: u32 = 1_000;

/// Hit points of an invader core.
pub const INVADER_CORE_HITS: u32 = 100_000;

} // verus!
