//! What the host tells about the game as a whole.

use crate::constants::small_enums::Direction;
use crate::text::{decimal_u32, parse_u32};
use vstd::prelude::*;

verus! {

/// How the memory of the guest is used, in bytes.
#[derive(Clone, Copy, Debug, PartialEq, Eq, Structural)]
pub struct HeapStatistics {
    pub total_heap_size: u32,
    pub total_heap_size_executable: u32,
    pub total_physical_size: u32,
    pub used_heap_size: u32,
    pub heap_size_limit: u32,
    pub malloced_memory: u32,
    pub peak_malloced_memory: u32,
    pub does_zap_garbage: u32,
    pub externally_allocated_size: u32,
}

impl HeapStatistics {
    /// The statistics in which every number is 0.
    pub open spec fn zero() -> HeapStatistics {
        HeapStatistics {
            total_heap_size: 0,
            total_heap_size_executable: 0,
            total_physical_size: 0,
            used_heap_size: 0,
            heap_size_limit: 0,
            malloced_memory: 0,
            peak_malloced_memory: 0,
            does_zap_garbage: 0,
            externally_allocated_size: 0,
        }
    }
}

impl Default for HeapStatistics {
    fn default() -> (stats: HeapStatistics)
        ensures
            stats == HeapStatistics::zero(),
    {
        HeapStatistics {
            total_heap_size: 0,
            total_heap_size_executable: 0,
            total_physical_size: 0,
            used_heap_size: 0,
            heap_size_limit: 0,
            malloced_memory: 0,
            peak_malloced_memory: 0,
            does_zap_garbage: 0,
            externally_allocated_size: 0,
        }
    }
}

/// The statistics that the host gave, or all zeros where it gave none.
pub fn get_heap_statistics(given: Option<HeapStatistics>) -> (stats: HeapStatistics)
    ensures
        stats == match given {
            Some(stats) => stats,
            None => HeapStatistics::zero(),
        },
{
    match given {
        Some(stats) => stats,
        None => HeapStatistics::default(),
    }
}


/// The direction that the host means by `key`: the host names the exits of
/// a room by the numbers of their directions, written in decimal digits.
pub open spec fn exit_direction(key: Seq<char>) -> Option<Direction> {
    match decimal_u32(key) {
        Some(code) => Direction::spec_from_code(code as int),
        None => None,
    }
}

/// The exits of a room by direction, from the exits by name as the host
/// hands them out. Every name must be the number of a direction; a list
/// with any other name is no list of exits.
pub fn describe_exits(named: Vec<(String, String)>) -> (exits: Option<Vec<(Direction, String)>>)
    ensures
        exits is Some <==> forall|i: int|
            0 <= i < named@.len() ==> exit_direction((#[trigger] named@[i]).0@) is Some,
        exits matches Some(list) ==> list@.len() == named@.len() && forall|i: int|
            0 <= i < named@.len() ==> (#[trigger] list@[i]).0 == exit_direction(named@[i].0@)->0
                && list@[i].1 == named@[i].1,
{
    let mut list: Vec<(Direction, String)> = Vec::with_capacity(named.len());
    let mut idx: usize = 0;
    while idx < named.len()
        invariant
            idx <= named@.len(),
            list@.len() == idx,
            forall|i: int| 0 <= i < idx ==> exit_direction((#[trigger] named@[i]).0@) is Some,
            forall|i: int|
                0 <= i < idx ==> (#[trigger] list@[i]).0 == exit_direction(named@[i].0@)->0
                    && list@[i].1 == named@[i].1,
        decreases named@.len() - idx,
    {
        let code = match parse_u32(named[idx].0.as_str()) {
            Some(code) => code,
            None => return None,
        };
        let direction = match Direction::from_code(code) {
            Some(direction) => direction,
            None => return None,
        };
        list.push((direction, named[idx].1.clone()));
        idx += 1;
    }
    Some(list)
}

} // verus!
