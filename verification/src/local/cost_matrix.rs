//! Movement-cost grids for one room, in a dense and a sparse encoding.
//!
//! A room is a square of 50 by 50 tiles and every tile carries a cost between
//! 0 and 255, where 0 stands for "no cost recorded". [`LocalCostMatrix`]
//! stores one byte per tile; [`SparseCostMatrix`] stores only the tiles that
//! were written. Both are exchanged with the outside world as plain values:
//! the dense form as 2500 bytes in x-major order, the sparse form as a list
//! of `((x, y), cost)` entries.
//!
//! The two forms treat a zero differently when they are merged into another
//! matrix. In a dense source a zero says nothing and leaves the target as it
//! is. A sparse source says only what it stores, so a stored zero overwrites.
//!
//! A sparse matrix never stores a tile outside the room. Storing a single
//! cost refuses such a tile, reading a serialised list refuses the whole
//! list, and building from a list of any origin passes the tile over. The
//! conversions and merges rely on this and look at no coordinate twice.

use crate::local::cost_matrix::laws::lemma_linearization;
use crate::local::cost_matrix::model::{
    all_in_room, checked_grid, enumerates, first_stray, grid_entries, grid_merge, grid_of_sparse,
    grid_overlay, in_room, linear_index, sparse_of_entries, sparse_of_grid, tile_at,
    tiles_with_costs, zero_grid,
};
use crate::local::room_position::Position;
use std::collections::HashMap;
use std::ops::{Index, IndexMut};
use vstd::prelude::*;
use vstd::std_specs::hash::spec_hash_map_iter;
use vstd::std_specs::iter::IteratorSpec;

pub mod laws;
pub mod model;

verus! {

/// Side length of a room, in tiles.
pub const ROOM_SIZE: u8 = 50;

/// Number of tiles in a room.
pub const ROOM_AREA: usize = 2500;

/// Why an operation on a cost matrix was refused.
#[derive(Clone, Copy, Debug, PartialEq, Eq, Structural)]
pub enum CostMatrixError {
    /// A checked accessor was handed a tile outside the room.
    OutOfBounds { x: u8, y: u8 },
    /// A flat buffer did not hold one byte per tile.
    LengthMismatch { expected: usize, actual: usize },
    /// A list of sparse entries named a tile outside the room.
    InvalidCoordinate { x: u8, y: u8 },
}

/// Position of tile `(x, y)` in the flat layout.
pub fn pos_as_idx(x: u8, y: u8) -> (idx: usize)
    ensures
        idx == linear_index(x, y),
{
    (x as usize) * 50 + (y as usize)
}

/// Tile stored at position `idx` of the flat layout.
pub fn idx_as_pos(idx: usize) -> (pos: (u8, u8))
    requires
        idx < ROOM_AREA,
    ensures
        pos == tile_at(idx as int),
{
    ((idx / 50) as u8, (idx % 50) as u8)
}

/// Whether `stored` is what a walk over the hash map `m` hands out: pairs
/// of the map, and every pair of it.
spec fn walks<'a>(stored: Seq<(&'a u16, &'a u8)>, m: Map<u16, u8>) -> bool {
    &&& forall|i: int|
        0 <= i < stored.len() ==> m.contains_key(*(#[trigger] stored[i]).0) && m[*stored[i].0]
            == *stored[i].1
    &&& forall|k: u16| #[trigger] m.contains_key(k) ==> stored.contains((&k, &m[k]))
}

/// Whether `key` is among the first `n` keys that a walk over a hash map
/// hands out.
spec fn visited<'a>(stored: Seq<(&'a u16, &'a u8)>, n: int, key: u16) -> bool {
    exists|i: int| 0 <= i < n && *(#[trigger] stored[i]).0 == key
}

/// A walk over a hash map hands out pairs of the map, and every pair of it.
proof fn lemma_walks(map: &HashMap<u16, u8>)
    ensures
        walks(spec_hash_map_iter(map).remaining(), map@),
{
    let stored = spec_hash_map_iter(map).remaining();
    assert forall|i: int| 0 <= i < stored.len() implies map@.contains_key(
        *(#[trigger] stored[i]).0,
    ) && map@[*stored[i].0] == *stored[i].1 by {
        assert(map@.contains_key(*stored[i].0));
    }
}

/// The keys among the first `n + 1` are those among the first `n` and the
/// one after them.
proof fn lemma_visited_step<'a>(stored: Seq<(&'a u16, &'a u8)>, n: int, key: u16)
    requires
        0 <= n < stored.len(),
    ensures
        visited(stored, n + 1, key) <==> visited(stored, n, key) || key == *stored[n].0,
{
    if visited(stored, n + 1, key) {
        let i = choose|i: int| 0 <= i < n + 1 && *(#[trigger] stored[i]).0 == key;
        if i < n {
            assert(visited(stored, n, key));
        }
    }
    if visited(stored, n, key) {
        let i = choose|i: int| 0 <= i < n && *(#[trigger] stored[i]).0 == key;
        assert(0 <= i < n + 1 && *stored[i].0 == key);
    }
    if key == *stored[n].0 {
        assert(0 <= n < n + 1 && *stored[n].0 == key);
    }
}

/// Once the walk is over, the keys that were handed out are the keys of
/// the map.
proof fn lemma_visited_all<'a>(m: Map<u16, u8>, stored: Seq<(&'a u16, &'a u8)>, key: u16)
    requires
        walks(stored, m),
    ensures
        visited(stored, stored.len() as int, key) <==> m.contains_key(key),
{
    if m.contains_key(key) {
        assert(stored.contains((&key, &m[key])));
        let i = choose|i: int| 0 <= i < stored.len() && stored[i] == (&key, &m[key]);
        assert(*stored[i].0 == key);
    }
}

/// A 50 by 50 grid of costs with one byte per tile, addressed by
/// `x * 50 + y`.
///
/// The view of a matrix is its flat form, a sequence of 2500 bytes.
#[derive(Debug)]
pub struct LocalCostMatrix {
    bits: [u8; 2500],
}

impl View for LocalCostMatrix {
    type V = Seq<u8>;

    closed spec fn view(&self) -> Seq<u8> {
        self.bits@
    }
}

impl Clone for LocalCostMatrix {
    fn clone(&self) -> (copy: Self)
        ensures
            copy@ == self@,
    {
        LocalCostMatrix { bits: self.bits }
    }
}

impl Default for LocalCostMatrix {
    fn default() -> (m: Self)
        ensures
            m@ == zero_grid(),
    {
        LocalCostMatrix::new()
    }
}

impl LocalCostMatrix {
    /// The cost recorded for tile `(x, y)`.
    pub open spec fn cost_at(&self, x: u8, y: u8) -> u8 {
        self@[linear_index(x, y)]
    }

    /// Every matrix holds exactly one byte per tile.
    pub proof fn lemma_len(&self)
        ensures
            self@.len() == 2500,
    {
    }

    /// A matrix in which every tile costs 0.
    pub fn new() -> (m: Self)
        ensures
            m@ == zero_grid(),
    {
        let m = LocalCostMatrix { bits: [0u8; 2500] };
        assert(m@ =~= zero_grid());
        m
    }

    /// Records `val` for tile `(x, y)`, or refuses a tile outside the room
    /// and leaves the matrix unchanged.
    pub fn set(&mut self, x: u8, y: u8, val: u8) -> (done: Result<(), CostMatrixError>)
        ensures
            in_room(x, y) ==> done == Ok::<(), CostMatrixError>(()) && final(self)@ == old(self)@.update(
                linear_index(x, y),
                val,
            ),
            !in_room(x, y) ==> done == Err::<(), CostMatrixError>(
                CostMatrixError::OutOfBounds { x, y },
            ) && *final(self) == *old(self),
    {
        if x < ROOM_SIZE && y < ROOM_SIZE {
            self.set_unchecked(x, y, val);
            Ok(())
        } else {
            Err(CostMatrixError::OutOfBounds { x, y })
        }
    }

    /// The cost of tile `(x, y)`, or a refusal of a tile outside the room.
    pub fn get(&self, x: u8, y: u8) -> (cost: Result<u8, CostMatrixError>)
        ensures
            in_room(x, y) ==> cost == Ok::<u8, CostMatrixError>(self.cost_at(x, y)),
            !in_room(x, y) ==> cost == Err::<u8, CostMatrixError>(
                CostMatrixError::OutOfBounds { x, y },
            ),
    {
        if x < ROOM_SIZE && y < ROOM_SIZE {
            Ok(self.get_unchecked(x, y))
        } else {
            Err(CostMatrixError::OutOfBounds { x, y })
        }
    }

    /// The cost of tile `(x, y)`, for callers that have already established
    /// that the tile lies inside the room.
    pub fn get_unchecked(&self, x: u8, y: u8) -> (cost: u8)
        requires
            in_room(x, y),
        ensures
            cost == self.cost_at(x, y),
    {
        self.bits[pos_as_idx(x, y)]
    }

    /// Records `val` for tile `(x, y)`, for callers that have already
    /// established that the tile lies inside the room.
    pub fn set_unchecked(&mut self, x: u8, y: u8, val: u8)
        requires
            in_room(x, y),
        ensures
            final(self)@ == old(self)@.update(linear_index(x, y), val),
    {
        let idx = pos_as_idx(x, y);
        self.bits[idx] = val;
    }

    /// The flat form of the matrix.
    pub fn get_bits(&self) -> (bits: &[u8; 2500])
        ensures
            bits@ == self@,
    {
        &self.bits
    }

    /// Every tile with its cost, in the order of the flat layout.
    pub fn iter(&self) -> (entries: Vec<((u8, u8), u8)>)
        ensures
            entries@ == grid_entries(self@),
    {
        let mut entries: Vec<((u8, u8), u8)> = Vec::with_capacity(ROOM_AREA);
        let mut idx: usize = 0;
        while idx < ROOM_AREA
            invariant
                idx <= ROOM_AREA,
                entries@.len() == idx,
                forall|i: int| 0 <= i < idx ==> entries@[i] == (tile_at(i), self@[i]),
            decreases ROOM_AREA - idx,
        {
            entries.push((idx_as_pos(idx), self.bits[idx]));
            idx += 1;
        }
        assert(entries@ =~= grid_entries(self@));
        entries
    }

    /// Replaces the cost of every tile by what `f` makes of the tile and its
    /// cost, in the order of the flat layout.
    pub fn iter_mut<F: Fn((u8, u8), u8) -> u8>(&mut self, f: F)
        requires
            forall|i: int| 0 <= i < 2500 ==> call_requires(f, (tile_at(i), old(self)@[i])),
        ensures
            forall|i: int|
                0 <= i < 2500 ==> call_ensures(
                    f,
                    (tile_at(i), old(self)@[i]),
                    #[trigger] final(self)@[i],
                ),
    {
        let mut idx: usize = 0;
        while idx < ROOM_AREA
            invariant
                idx <= ROOM_AREA,
                forall|i: int| 0 <= i < 2500 ==> call_requires(f, (tile_at(i), old(self)@[i])),
                forall|i: int|
                    0 <= i < idx ==> call_ensures(
                        f,
                        (tile_at(i), old(self)@[i]),
                        #[trigger] self@[i],
                    ),
                forall|i: int| idx <= i < 2500 ==> self@[i] == old(self)@[i],
            decreases ROOM_AREA - idx,
        {
            let pos = idx_as_pos(idx);
            let val = self.bits[idx];
            self.bits[idx] = f(pos, val);
            idx += 1;
        }
    }

    /// Takes every non-zero cost of `src` into `self`. A tile that costs 0
    /// in `src` keeps the cost it has in `self`.
    pub fn merge_from_dense(&mut self, src: &LocalCostMatrix)
        ensures
            final(self)@ == grid_merge(old(self)@, src@),
    {
        let mut idx: usize = 0;
        while idx < ROOM_AREA
            invariant
                idx <= ROOM_AREA,
                forall|i: int|
                    0 <= i < idx ==> self@[i] == if src@[i] != 0 {
                        src@[i]
                    } else {
                        old(self)@[i]
                    },
                forall|i: int| idx <= i < ROOM_AREA ==> self@[i] == old(self)@[i],
            decreases ROOM_AREA - idx,
        {
            let val = src.bits[idx];
            if val > 0 {
                self.bits[idx] = val;
            }
            idx += 1;
        }
        assert(self@ =~= grid_merge(old(self)@, src@));
    }

    /// Takes every entry of `src` into `self`, stored zeros included.
    pub fn merge_from_sparse(&mut self, src: &SparseCostMatrix)
        ensures
            final(self)@ == grid_overlay(old(self)@, src@),
    {
        proof {
            use_type_invariant(src);
        }
        let ghost stored = spec_hash_map_iter(&src.inner).remaining();
        proof {
            lemma_walks(&src.inner);
        }
        for kv in it: src.inner.iter()
            invariant
                forall|k: u16| src.inner@.contains_key(k) ==> k < 2500,
                it.seq() == stored,
                walks(stored, src.inner@),
                forall|idx: int|
                    0 <= idx < 2500 ==> self@[idx] == if visited(stored, it.index(), idx as u16) {
                        src.inner@[idx as u16]
                    } else {
                        old(self)@[idx]
                    },
        {
            let (k, v) = kv;
            let ghost n = it.index();
            let ghost before = self@;
            assert(kv == stored[n]);
            self.bits[*k as usize] = *v;
            proof {
                assert forall|idx: int| 0 <= idx < 2500 implies #[trigger] self@[idx] == if visited(
                    stored,
                    n + 1,
                    idx as u16,
                ) {
                    src.inner@[idx as u16]
                } else {
                    old(self)@[idx]
                } by {
                    lemma_visited_step(stored, n, idx as u16);
                    assert(self@[idx] == if idx == *k { *v } else { before[idx] });
                }
            }
        }
        proof {
            assert forall|idx: int| 0 <= idx < 2500 implies self@[idx] == grid_overlay(
                old(self)@,
                src@,
            )[idx] by {
                lemma_visited_all(src.inner@, stored, idx as u16);
            }
            assert(self@ =~= grid_overlay(old(self)@, src@));
        }
    }

    /// The flat form of the matrix: 2500 bytes, tile `(x, y)` at `x * 50 + y`.
    pub fn serialize(&self) -> (bytes: Vec<u8>)
        ensures
            bytes@ == self@,
            bytes@.len() == ROOM_AREA,
    {
        let mut bytes: Vec<u8> = Vec::with_capacity(ROOM_AREA);
        let mut idx: usize = 0;
        while idx < ROOM_AREA
            invariant
                idx <= ROOM_AREA,
                bytes@.len() == idx,
                forall|i: int| 0 <= i < idx ==> bytes@[i] == self@[i],
            decreases ROOM_AREA - idx,
        {
            bytes.push(self.bits[idx]);
            idx += 1;
        }
        assert(bytes@ =~= self@);
        bytes
    }

    /// Reads a matrix from its flat form. A buffer of exactly 2500 bytes is
    /// accepted whatever it holds; any other length is refused.
    pub fn deserialize(bytes: Vec<u8>) -> (read: Result<LocalCostMatrix, CostMatrixError>)
        ensures
            match read {
                Ok(m) => checked_grid(bytes@) == Ok::<Seq<u8>, CostMatrixError>(m@),
                Err(e) => checked_grid(bytes@) == Err::<Seq<u8>, CostMatrixError>(e),
            },
    {
        let len = bytes.len();
        if len != ROOM_AREA {
            return Err(CostMatrixError::LengthMismatch { expected: ROOM_AREA, actual: len });
        }
        let mut bits: [u8; 2500] = [0u8; 2500];
        let mut idx: usize = 0;
        while idx < ROOM_AREA
            invariant
                idx <= ROOM_AREA,
                bytes@.len() == ROOM_AREA,
                forall|i: int| 0 <= i < idx ==> bits@[i] == bytes@[i],
            decreases ROOM_AREA - idx,
        {
            bits[idx] = bytes[idx];
            idx += 1;
        }
        let m = LocalCostMatrix { bits };
        assert(m@ =~= bytes@);
        Ok(m)
    }
}


/// The key under which a tile is stored.
spec fn tile_key(p: (u8, u8)) -> u16 {
    linear_index(p.0, p.1) as u16
}

/// The entries that a map keyed by flat position holds, by tile.
spec fn tiles_of(stored: Map<u16, u8>) -> Map<(u8, u8), u8> {
    Map::new(
        |p: (u8, u8)| in_room(p.0, p.1) && stored.contains_key(tile_key(p)),
        |p: (u8, u8)| stored[tile_key(p)],
    )
}

/// A grid of costs that stores only the tiles that were written.
///
/// The view of a matrix is the map from the stored tiles to their costs. A
/// tile without an entry costs 0, and an entry may itself hold 0.
/// Every stored tile lies inside the room.
#[derive(Debug)]
pub struct SparseCostMatrix {
    inner: HashMap<u16, u8>,
}

impl View for SparseCostMatrix {
    type V = Map<(u8, u8), u8>;

    closed spec fn view(&self) -> Map<(u8, u8), u8> {
        tiles_of(self.inner@)
    }
}

impl SparseCostMatrix {
    #[verifier::type_invariant]
    spec fn keys_in_room(self) -> bool {
        forall|k: u16| self.inner@.contains_key(k) ==> k < 2500
    }

    /// The cost that tile `(x, y)` has: the stored cost, or 0 without an entry.
    pub open spec fn cost_at(&self, x: u8, y: u8) -> u8 {
        if self@.contains_key((x, y)) {
            self@[(x, y)]
        } else {
            0
        }
    }

    /// Every stored entry belongs to a tile of the room, and there are
    /// finitely many of them.
    pub proof fn lemma_keys_in_room(&self)
        ensures
            forall|p: (u8, u8)| self@.contains_key(p) ==> in_room(p.0, p.1),
            self@.dom().finite(),
    {
        let room = Set::new(|p: (u8, u8)| in_room(p.0, p.1));
        let tiles = Set::new(|i: int| 0 <= i < 2500).map(|i: int| tile_at(i));
        assert(Set::new(|i: int| 0 <= i < 2500) =~= vstd::set_lib::set_int_range(0, 2500));
        vstd::set_lib::lemma_int_range(0, 2500);
        Set::new(|i: int| 0 <= i < 2500).lemma_map_finite(|i: int| tile_at(i));
        assert forall|p: (u8, u8)| room.contains(p) implies tiles.contains(p) by {
            lemma_linearization(p.0, p.1, 0);
            assert(Set::new(|i: int| 0 <= i < 2500).contains(linear_index(p.0, p.1)));
        }
        assert(self@.dom().subset_of(tiles));
        vstd::set_lib::lemma_len_subset(self@.dom(), tiles);
    }

    /// Takes the stored entries out of the matrix and leaves it empty, so
    /// that they can be changed step by step and put back.
    fn take_entries(&mut self) -> (inner: HashMap<u16, u8>)
        ensures
            inner@ == old(self).inner@,
            forall|k: u16| inner@.contains_key(k) ==> k < 2500,
    {
        proof {
            use_type_invariant(&*self);
        }
        let mut inner: HashMap<u16, u8> = HashMap::new();
        std::mem::swap(&mut inner, &mut self.inner);
        inner
    }

    /// A matrix without entries.
    pub fn new() -> (m: Self)
        ensures
            m@ == Map::<(u8, u8), u8>::empty(),
    {
        let m = SparseCostMatrix { inner: HashMap::new() };
        assert(m@ =~= Map::<(u8, u8), u8>::empty());
        m
    }

    /// The cost of tile `(x, y)`, or a refusal of a tile outside the room.
    pub fn get(&self, x: u8, y: u8) -> (cost: Result<u8, CostMatrixError>)
        ensures
            in_room(x, y) ==> cost == Ok::<u8, CostMatrixError>(self.cost_at(x, y)),
            !in_room(x, y) ==> cost == Err::<u8, CostMatrixError>(
                CostMatrixError::OutOfBounds { x, y },
            ),
    {
        if x < ROOM_SIZE && y < ROOM_SIZE {
            let key = pos_as_idx(x, y) as u16;
            match self.inner.get(&key) {
                Some(val) => Ok(*val),
                None => Ok(0),
            }
        } else {
            Err(CostMatrixError::OutOfBounds { x, y })
        }
    }

    /// Stores `val` for tile `(x, y)`, a zero included, or refuses a tile
    /// outside the room and leaves the matrix unchanged.
    pub fn set(&mut self, x: u8, y: u8, val: u8) -> (done: Result<(), CostMatrixError>)
        ensures
            in_room(x, y) ==> done == Ok::<(), CostMatrixError>(()) && final(self)@ == old(self)@.insert(
                (x, y),
                val,
            ),
            !in_room(x, y) ==> done == Err::<(), CostMatrixError>(
                CostMatrixError::OutOfBounds { x, y },
            ) && final(self)@ == old(self)@,
    {
        if x < ROOM_SIZE && y < ROOM_SIZE {
            let key = pos_as_idx(x, y) as u16;
            let mut inner = self.take_entries();
            inner.insert(key, val);
            self.inner = inner;
            assert(self@ =~= old(self)@.insert((x, y), val));
            Ok(())
        } else {
            Err(CostMatrixError::OutOfBounds { x, y })
        }
    }

    /// The stored entries, each tile once, in no particular order.
    pub fn iter(&self) -> (entries: Vec<((u8, u8), u8)>)
        ensures
            enumerates(entries@, self@),
    {
        proof {
            use_type_invariant(self);
        }
        let mut entries: Vec<((u8, u8), u8)> = Vec::new();
        let ghost stored = spec_hash_map_iter(&self.inner).remaining();
        proof {
            lemma_walks(&self.inner);
        }
        for kv in it: self.inner.iter()
            invariant
                forall|k: u16| self.inner@.contains_key(k) ==> k < 2500,
                it.seq() == stored,
                walks(stored, self.inner@),
                entries@.len() == it.index(),
                forall|i: int|
                    0 <= i < it.index() ==> entries@[i] == (
                        tile_at(*stored[i].0 as int),
                        *stored[i].1,
                    ),
        {
            let (k, v) = kv;
            assert(kv == stored[it.index()]);
            entries.push((idx_as_pos(*k as usize), *v));
        }
        proof {
            assert(stored.no_duplicates());
            assert forall|p: (u8, u8)| self@.contains_key(p) implies exists|i: int|
                0 <= i < entries@.len() && (#[trigger] entries@[i]).0 == p by {
                let k = tile_key(p);
                assert(self.inner@.contains_key(k));
                assert(stored.contains((&k, &self.inner@[k])));
                let i = choose|i: int| 0 <= i < stored.len() && stored[i] == (&k, &self.inner@[k]);
                assert(entries@[i].0 == p);
            }
            assert forall|i: int, j: int| 0 <= i < j < entries@.len() implies (
            #[trigger] entries@[i]).0 != (#[trigger] entries@[j]).0 by {
                assert(self.inner@.contains_key(*stored[i].0));
                assert(self.inner@.contains_key(*stored[j].0));
                if *stored[i].0 == *stored[j].0 {
                    assert(stored[i] == stored[j]);
                }
            }
        }
        entries
    }

    /// Replaces the cost of every stored entry by what `f` makes of its tile
    /// and its cost. No entry is added or removed.
    pub fn iter_mut<F: Fn((u8, u8), u8) -> u8>(&mut self, f: F)
        requires
            forall|p: (u8, u8)|
                old(self)@.contains_key(p) ==> call_requires(f, (p, #[trigger] old(self)@[p])),
        ensures
            final(self)@.dom() == old(self)@.dom(),
            forall|p: (u8, u8)|
                old(self)@.contains_key(p) ==> call_ensures(
                    f,
                    (p, old(self)@[p]),
                    #[trigger] final(self)@[p],
                ),
    {
        let entries = self.iter();
        let mut inner = self.take_entries();
        let ghost before = tiles_of(inner@);
        let mut idx: usize = 0;
        while idx < entries.len()
            invariant
                idx <= entries@.len(),
                before == old(self)@,
                enumerates(entries@, before),
                forall|p: (u8, u8)|
                    before.contains_key(p) ==> call_requires(f, (p, #[trigger] before[p])),
                forall|k: u16| inner@.contains_key(k) ==> k < 2500,
                tiles_of(inner@).dom() == before.dom(),
                forall|j: int|
                    0 <= j < idx ==> call_ensures(
                        f,
                        ((#[trigger] entries@[j]).0, before[entries@[j].0]),
                        tiles_of(inner@)[entries@[j].0],
                    ),
                forall|j: int|
                    idx <= j < entries@.len() ==> tiles_of(inner@)[(#[trigger] entries@[j]).0]
                        == before[entries@[j].0],
            decreases entries@.len() - idx,
        {
            let (pos, val) = entries[idx];
            let ghost earlier = inner@;
            assert(before.contains_pair(entries@[idx as int].0, entries@[idx as int].1));
            let next = f(pos, val);
            inner.insert(pos_as_idx(pos.0, pos.1) as u16, next);
            proof {
                assert(tiles_of(inner@) =~= tiles_of(earlier).insert(pos, next));
                assert(tiles_of(inner@).dom() =~= before.dom());
            }
            idx += 1;
        }
        self.inner = inner;
        proof {
            assert forall|p: (u8, u8)| old(self)@.contains_key(p) implies call_ensures(
                f,
                (p, old(self)@[p]),
                #[trigger] self@[p],
            ) by {
                let j = choose|j: int| 0 <= j < entries@.len() && (#[trigger] entries@[j]).0 == p;
                assert(entries@[j].0 == p);
            }
        }
    }

    /// The stored entries, as they are handed to storage or to the host.
    pub fn serialize(&self) -> (entries: Vec<((u8, u8), u8)>)
        ensures
            enumerates(entries@, self@),
    {
        self.iter()
    }

    /// Reads a matrix from a list of entries. A list that names a tile
    /// outside the room is refused as a whole, with the first such tile.
    pub fn deserialize(entries: Vec<((u8, u8), u8)>) -> (read: Result<
        SparseCostMatrix,
        CostMatrixError,
    >)
        ensures
            all_in_room(entries@) ==> (read matches Ok(m) && m@ == sparse_of_entries(entries@)),
            !all_in_room(entries@) ==> (read matches Err(CostMatrixError::InvalidCoordinate { x, y })
                && exists|i: int| first_stray(entries@, i) && (#[trigger] entries@[i]).0 == (x, y)),
    {
        let mut idx: usize = 0;
        while idx < entries.len()
            invariant
                idx <= entries@.len(),
                forall|i: int| 0 <= i < idx ==> in_room((#[trigger] entries@[i]).0.0, entries@[i].0.1),
            decreases entries@.len() - idx,
        {
            let (x, y) = entries[idx].0;
            if x >= ROOM_SIZE || y >= ROOM_SIZE {
                assert(first_stray(entries@, idx as int));
                return Err(CostMatrixError::InvalidCoordinate { x, y });
            }
            idx += 1;
        }
        Ok(SparseCostMatrix::from(entries))
    }

    /// Takes every non-zero cost of `src` into `self`, replacing the entry
    /// of its tile. A tile that costs 0 in `src` adds no entry and clears
    /// none.
    pub fn merge_from_dense(&mut self, src: &LocalCostMatrix)
        ensures
            final(self)@ == old(self)@.union_prefer_right(sparse_of_grid(src@)),
    {
        let mut inner = self.take_entries();
        let ghost before = inner@;
        let mut idx: usize = 0;
        while idx < ROOM_AREA
            invariant
                idx <= ROOM_AREA,
                forall|k: u16| inner@.contains_key(k) ==> k < 2500,
                forall|k: u16|
                    #[trigger] inner@.contains_key(k) <==> before.contains_key(k) || (k < idx
                        && src@[k as int] != 0),
                forall|k: u16|
                    #[trigger] inner@.contains_key(k) ==> inner@[k] == if k < idx && src@[k as int]
                        != 0 {
                        src@[k as int]
                    } else {
                        before[k]
                    },
            decreases ROOM_AREA - idx,
        {
            let val = src.get_bits()[idx];
            if val > 0 {
                inner.insert(idx as u16, val);
            }
            idx += 1;
        }
        self.inner = inner;
        assert(self@ =~= old(self)@.union_prefer_right(sparse_of_grid(src@)));
    }

    /// Takes every entry of `src` into `self`, stored zeros included,
    /// replacing the entry of its tile.
    pub fn merge_from_sparse(&mut self, src: &SparseCostMatrix)
        ensures
            final(self)@ == old(self)@.union_prefer_right(src@),
    {
        proof {
            use_type_invariant(src);
        }
        let mut inner = self.take_entries();
        let ghost before = inner@;
        let ghost stored = spec_hash_map_iter(&src.inner).remaining();
        proof {
            lemma_walks(&src.inner);
        }
        for kv in it: src.inner.iter()
            invariant
                forall|k: u16| inner@.contains_key(k) ==> k < 2500,
                forall|k: u16| src.inner@.contains_key(k) ==> k < 2500,
                it.seq() == stored,
                walks(stored, src.inner@),
                forall|k: u16|
                    #[trigger] inner@.contains_key(k) <==> before.contains_key(k) || visited(
                        stored,
                        it.index(),
                        k,
                    ),
                forall|k: u16|
                    #[trigger] inner@.contains_key(k) ==> inner@[k] == if visited(
                        stored,
                        it.index(),
                        k,
                    ) {
                        src.inner@[k]
                    } else {
                        before[k]
                    },
        {
            let (k, v) = kv;
            let ghost n = it.index();
            let ghost earlier = inner@;
            assert(kv == stored[n]);
            inner.insert(*k, *v);
            proof {
                assert forall|key: u16|
                    (#[trigger] inner@.contains_key(key) <==> before.contains_key(key) || visited(
                        stored,
                        n + 1,
                        key,
                    )) && (inner@.contains_key(key) ==> inner@[key] == if visited(
                        stored,
                        n + 1,
                        key,
                    ) {
                        src.inner@[key]
                    } else {
                        before[key]
                    }) by {
                    lemma_visited_step(stored, n, key);
                    assert(inner@ == earlier.insert(*k, *v));
                    assert(earlier.contains_key(key) <==> before.contains_key(key) || visited(
                        stored,
                        n,
                        key,
                    ));
                }
            }
        }
        proof {
            assert forall|key: u16|
                visited(stored, stored.len() as int, key) <==> #[trigger] src.inner@.contains_key(
                    key,
                ) by {
                lemma_visited_all(src.inner@, stored, key);
            }
        }
        self.inner = inner;
        assert(self@ =~= old(self)@.union_prefer_right(src@));
    }
}

impl Clone for SparseCostMatrix {
    fn clone(&self) -> (copy: Self)
        ensures
            copy@ == self@,
    {
        proof {
            use_type_invariant(self);
        }
        SparseCostMatrix { inner: self.inner.clone() }
    }
}

impl Default for SparseCostMatrix {
    fn default() -> (m: Self)
        ensures
            m@ == Map::<(u8, u8), u8>::empty(),
    {
        SparseCostMatrix::new()
    }
}

impl vstd::std_specs::convert::FromSpecImpl<Vec<((u8, u8), u8)>> for SparseCostMatrix {
    open spec fn obeys_from_spec() -> bool {
        false
    }

    open spec fn from_spec(entries: Vec<((u8, u8), u8)>) -> Self {
        arbitrary()
    }
}

impl From<Vec<((u8, u8), u8)>> for SparseCostMatrix {
    /// Builds a matrix from a list of entries. An entry outside the room is
    /// passed over; of two entries for one tile the later one stays.
    fn from(entries: Vec<((u8, u8), u8)>) -> (m: Self)
        ensures
            m@ == sparse_of_entries(entries@),
    {
        let mut inner: HashMap<u16, u8> = HashMap::new();
        let ghost mut built: Map<(u8, u8), u8> = Map::empty();
        let mut idx: usize = 0;
        while idx < entries.len()
            invariant
                idx <= entries@.len(),
                forall|k: u16| inner@.contains_key(k) ==> k < 2500,
                built == sparse_of_entries(entries@.take(idx as int)),
                forall|p: (u8, u8)|
                    built.contains_key(p) <==> in_room(p.0, p.1) && inner@.contains_key(tile_key(p)),
                forall|p: (u8, u8)| built.contains_key(p) ==> built[p] == inner@[tile_key(p)],
            decreases entries@.len() - idx,
        {
            let ((x, y), val) = entries[idx];
            proof {
                assert(entries@.take(idx + 1).drop_last() =~= entries@.take(idx as int));
                assert(entries@.take(idx + 1).last() == entries@[idx as int]);
            }
            if x < ROOM_SIZE && y < ROOM_SIZE {
                inner.insert(pos_as_idx(x, y) as u16, val);
                proof {
                    built = built.insert((x, y), val);
                }
            }
            idx += 1;
        }
        proof {
            assert(entries@.take(entries@.len() as int) =~= entries@);
        }
        let m = SparseCostMatrix { inner };
        assert(m@ =~= built);
        m
    }
}

impl vstd::std_specs::convert::FromSpecImpl<LocalCostMatrix> for SparseCostMatrix {
    open spec fn obeys_from_spec() -> bool {
        false
    }

    open spec fn from_spec(lcm: LocalCostMatrix) -> Self {
        arbitrary()
    }
}

impl From<LocalCostMatrix> for SparseCostMatrix {
    /// The sparse form of a dense matrix: one entry for each non-zero cost.
    fn from(lcm: LocalCostMatrix) -> (m: Self)
        ensures
            m@ == sparse_of_grid(lcm@),
    {
        let mut m = SparseCostMatrix::new();
        m.merge_from_dense(&lcm);
        assert(m@ =~= sparse_of_grid(lcm@));
        m
    }
}

impl vstd::std_specs::convert::FromSpecImpl<SparseCostMatrix> for LocalCostMatrix {
    open spec fn obeys_from_spec() -> bool {
        false
    }

    open spec fn from_spec(scm: SparseCostMatrix) -> Self {
        arbitrary()
    }
}

impl From<SparseCostMatrix> for LocalCostMatrix {
    /// The dense form of a sparse matrix: a tile without an entry costs 0.
    fn from(scm: SparseCostMatrix) -> (m: Self)
        ensures
            m@ == grid_of_sparse(scm@),
    {
        let mut m = LocalCostMatrix::new();
        m.merge_from_sparse(&scm);
        m
    }
}

impl vstd::std_specs::convert::FromSpecImpl<[u8; 2500]> for LocalCostMatrix {
    open spec fn obeys_from_spec() -> bool {
        false
    }

    open spec fn from_spec(bits: [u8; 2500]) -> Self {
        arbitrary()
    }
}

impl From<[u8; 2500]> for LocalCostMatrix {
    /// Takes over a flat buffer whose length the type already guarantees.
    fn from(bits: [u8; 2500]) -> (m: Self)
        ensures
            m@ == bits@,
    {
        LocalCostMatrix { bits }
    }
}

impl vstd::std_specs::convert::FromSpecImpl<LocalCostMatrix> for Vec<u8> {
    open spec fn obeys_from_spec() -> bool {
        false
    }

    open spec fn from_spec(lcm: LocalCostMatrix) -> Self {
        arbitrary()
    }
}

impl From<LocalCostMatrix> for Vec<u8> {
    /// The flat form of a matrix: 2500 bytes, tile `(x, y)` at `x * 50 + y`.
    fn from(lcm: LocalCostMatrix) -> (bytes: Vec<u8>)
        ensures
            bytes@ == lcm@,
            bytes@.len() == ROOM_AREA,
    {
        lcm.serialize()
    }
}


impl vstd::std_specs::convert::TryFromSpecImpl<Vec<u8>> for LocalCostMatrix {
    open spec fn obeys_try_from_spec() -> bool {
        false
    }

    open spec fn try_from_spec(bytes: Vec<u8>) -> Result<Self, Self::Error> {
        arbitrary()
    }
}

impl TryFrom<Vec<u8>> for LocalCostMatrix {
    type Error = CostMatrixError;

    /// Reads a matrix from a flat buffer of unknown length.
    fn try_from(bytes: Vec<u8>) -> (read: Result<LocalCostMatrix, CostMatrixError>)
        ensures
            match read {
                Ok(m) => checked_grid(bytes@) == Ok::<Seq<u8>, CostMatrixError>(m@),
                Err(e) => checked_grid(bytes@) == Err::<Seq<u8>, CostMatrixError>(e),
            },
    {
        LocalCostMatrix::deserialize(bytes)
    }
}

impl vstd::std_specs::convert::TryFromSpecImpl<Vec<u8>> for SparseCostMatrix {
    open spec fn obeys_try_from_spec() -> bool {
        false
    }

    open spec fn try_from_spec(bytes: Vec<u8>) -> Result<Self, Self::Error> {
        arbitrary()
    }
}

impl TryFrom<Vec<u8>> for SparseCostMatrix {
    type Error = CostMatrixError;

    /// Reads the non-zero bytes of a flat buffer as sparse entries. A
    /// buffer that does not hold one byte per tile is refused.
    fn try_from(bytes: Vec<u8>) -> (read: Result<SparseCostMatrix, CostMatrixError>)
        ensures
            match read {
                Ok(m) => bytes@.len() == 2500 && m@ == sparse_of_grid(bytes@),
                Err(e) => checked_grid(bytes@) == Err::<Seq<u8>, CostMatrixError>(e),
            },
    {
        match LocalCostMatrix::deserialize(bytes) {
            Ok(lcm) => Ok(SparseCostMatrix::from(lcm)),
            Err(e) => Err(e),
        }
    }
}


impl vstd::std_specs::core::IndexSpecImpl<Position> for LocalCostMatrix {
    open spec fn index_req(&self, index: &Position) -> bool {
        true
    }
}

impl Index<Position> for LocalCostMatrix {
    type Output = u8;

    /// The cost of the tile at `pos`. A position always names a tile of the
    /// room, so there is nothing to refuse.
    fn index(&self, pos: Position) -> (cost: &u8)
        ensures
            in_room(pos@.0, pos@.1),
            *cost == self.cost_at(pos@.0, pos@.1),
    {
        let (x, y) = pos.tile();
        &self.bits[pos_as_idx(x, y)]
    }
}

impl IndexMut<Position> for LocalCostMatrix {
    /// The cost of the tile at `pos`, to be written.
    fn index_mut(&mut self, pos: Position) -> (cost: &mut u8)
        ensures
            in_room(pos@.0, pos@.1),
            *cost == old(self).cost_at(pos@.0, pos@.1),
            final(self)@ == old(self)@.update(linear_index(pos@.0, pos@.1), *final(cost)),
    {
        let (x, y) = pos.tile();
        &mut self.bits[pos_as_idx(x, y)]
    }
}

impl vstd::std_specs::convert::FromSpecImpl<Vec<(Position, u8)>> for SparseCostMatrix {
    open spec fn obeys_from_spec() -> bool {
        false
    }

    open spec fn from_spec(entries: Vec<(Position, u8)>) -> Self {
        arbitrary()
    }
}

impl From<Vec<(Position, u8)>> for SparseCostMatrix {
    /// Builds a matrix from a list of positions with their costs. Of two
    /// entries for one tile the later one stays.
    fn from(entries: Vec<(Position, u8)>) -> (m: Self)
        ensures
            m@ == sparse_of_entries(tiles_with_costs(entries@)),
    {
        let mut plain: Vec<((u8, u8), u8)> = Vec::with_capacity(entries.len());
        let mut idx: usize = 0;
        while idx < entries.len()
            invariant
                idx <= entries@.len(),
                plain@.len() == idx,
                forall|i: int| 0 <= i < idx ==> plain@[i] == (entries@[i].0@, entries@[i].1),
            decreases entries@.len() - idx,
        {
            let (pos, val) = entries[idx];
            plain.push((pos.tile(), val));
            idx += 1;
        }
        assert(plain@ =~= tiles_with_costs(entries@));
        SparseCostMatrix::from(plain)
    }
}


} // verus!
