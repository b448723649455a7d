//! The mathematical model of a room's costs: the flat layout of the dense
//! form, the map of the sparse form, and how one is turned into the other.

use crate::local::cost_matrix::CostMatrixError;
use crate::local::room_position::Position;
use vstd::prelude::*;

verus! {

/// Whether `(x, y)` names a tile inside a room.
pub open spec fn in_room(x: u8, y: u8) -> bool {
    x < 50 && y < 50
}

/// The position of tile `(x, y)` in the flat layout: x varies slowest.
pub open spec fn linear_index(x: u8, y: u8) -> int {
    x * 50 + y
}

/// The tile stored at position `idx` of the flat layout.
pub open spec fn tile_at(idx: int) -> (u8, u8) {
    ((idx / 50) as u8, (idx % 50) as u8)
}

/// The all-zero grid.
pub open spec fn zero_grid() -> Seq<u8> {
    Seq::new(2500, |i: int| 0u8)
}

/// The entries a traversal of a dense grid yields: every tile with its cost,
/// in the order of the flat layout.
pub open spec fn grid_entries(grid: Seq<u8>) -> Seq<((u8, u8), u8)> {
    Seq::new(2500, |i: int| (tile_at(i), grid[i]))
}

/// A dense grid merged into a dense grid: the non-zero costs of `src`
/// replace those of `dst`, the zero costs of `src` leave `dst` as it is.
pub open spec fn grid_merge(dst: Seq<u8>, src: Seq<u8>) -> Seq<u8> {
    Seq::new(
        2500,
        |i: int|
            if src[i] != 0 {
                src[i]
            } else {
                dst[i]
            },
    )
}

/// Sparse entries laid over a dense grid: every stored entry, a stored zero
/// included, replaces the cost of its tile.
pub open spec fn grid_overlay(dst: Seq<u8>, src: Map<(u8, u8), u8>) -> Seq<u8> {
    Seq::new(
        2500,
        |i: int|
            if src.contains_key(tile_at(i)) {
                src[tile_at(i)]
            } else {
                dst[i]
            },
    )
}

/// The sparse form of a dense grid: one entry for each non-zero cost.
pub open spec fn sparse_of_grid(grid: Seq<u8>) -> Map<(u8, u8), u8> {
    Map::new(
        |p: (u8, u8)| in_room(p.0, p.1) && grid[linear_index(p.0, p.1)] != 0,
        |p: (u8, u8)| grid[linear_index(p.0, p.1)],
    )
}

/// The dense form of sparse entries: a tile without an entry costs 0.
pub open spec fn grid_of_sparse(entries: Map<(u8, u8), u8>) -> Seq<u8> {
    grid_overlay(zero_grid(), entries)
}

/// What reading a flat buffer gives: the buffer itself as a grid if it holds
/// one byte per tile, and otherwise a report of its length.
pub open spec fn checked_grid(bytes: Seq<u8>) -> Result<Seq<u8>, CostMatrixError> {
    if bytes.len() == 2500 {
        Ok(bytes)
    } else {
        Err(CostMatrixError::LengthMismatch { expected: 2500, actual: bytes.len() as usize })
    }
}

/// The map that a list of entries builds up, first to last: an entry
/// replaces an earlier one for the same tile, and an entry outside the room
/// is passed over.
pub open spec fn sparse_of_entries(entries: Seq<((u8, u8), u8)>) -> Map<(u8, u8), u8>
    decreases entries.len(),
{
    if entries.len() == 0 {
        Map::empty()
    } else {
        let earlier = sparse_of_entries(entries.drop_last());
        let entry = entries.last();
        if in_room(entry.0.0, entry.0.1) {
            earlier.insert(entry.0, entry.1)
        } else {
            earlier
        }
    }
}

/// A list of positions with their costs as a list of plain entries.
pub open spec fn tiles_with_costs(entries: Seq<(Position, u8)>) -> Seq<((u8, u8), u8)> {
    Seq::new(entries.len(), |i: int| (entries[i].0@, entries[i].1))
}

/// Whether every entry of the list names a tile inside the room.
pub open spec fn all_in_room(entries: Seq<((u8, u8), u8)>) -> bool {
    forall|i: int| 0 <= i < entries.len() ==> in_room((#[trigger] entries[i]).0.0, entries[i].0.1)
}

/// Whether `i` is the position of the first entry that names a tile outside
/// the room.
pub open spec fn first_stray(entries: Seq<((u8, u8), u8)>, i: int) -> bool {
    &&& 0 <= i < entries.len()
    &&& !in_room(entries[i].0.0, entries[i].0.1)
    &&& forall|j: int| 0 <= j < i ==> in_room((#[trigger] entries[j]).0.0, entries[j].0.1)
}

/// Whether the list holds exactly the entries of the map, each tile once.
pub open spec fn enumerates(entries: Seq<((u8, u8), u8)>, m: Map<(u8, u8), u8>) -> bool {
    &&& forall|i: int|
        0 <= i < entries.len() ==> m.contains_pair((#[trigger] entries[i]).0, entries[i].1)
    &&& forall|p: (u8, u8)|
        m.contains_key(p) ==> exists|i: int| 0 <= i < entries.len() && (#[trigger] entries[i]).0 == p
    &&& forall|i: int, j: int|
        0 <= i < j < entries.len() ==> (#[trigger] entries[i]).0 != (#[trigger] entries[j]).0
}

} // verus!
