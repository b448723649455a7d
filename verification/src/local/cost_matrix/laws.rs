//! What holds of cost matrices whatever they contain.

use crate::local::cost_matrix::model::{
    all_in_room, checked_grid, enumerates, grid_merge, grid_of_sparse, grid_overlay, in_room,
    linear_index, sparse_of_entries, sparse_of_grid, tile_at,
};
use crate::local::cost_matrix::{CostMatrixError, LocalCostMatrix};
use vstd::prelude::*;

verus! {

/// `linear_index` and `tile_at` are inverse to each other on the tiles of a
/// room and the positions of the flat layout.
pub proof fn lemma_linearization(x: u8, y: u8, idx: int)
    ensures
        in_room(x, y) ==> 0 <= linear_index(x, y) < 2500 && tile_at(linear_index(x, y)) == (x, y),
        0 <= idx < 2500 ==> in_room(tile_at(idx).0, tile_at(idx).1) && linear_index(
            tile_at(idx).0,
            tile_at(idx).1,
        ) == idx,
{
}

/// A matrix that was read from a flat buffer of 2500 bytes is written back
/// as the same bytes.
pub proof fn lemma_flat_round_trip(bytes: Seq<u8>, m: LocalCostMatrix, written: Seq<u8>)
    requires
        bytes.len() == 2500,
        checked_grid(bytes) == Ok::<Seq<u8>, CostMatrixError>(m@),
        written == m@,
    ensures
        written == bytes,
{
}

/// A flat buffer of 2500 bytes is accepted whatever it holds, as the grid
/// with exactly these bytes.
pub proof fn lemma_flat_accepts_any_content(bytes: Seq<u8>)
    requires
        bytes.len() == 2500,
    ensures
        checked_grid(bytes) == Ok::<Seq<u8>, CostMatrixError>(bytes),
{
}

/// A buffer of any other length is refused, and the refusal reports the
/// length that was found.
pub proof fn lemma_flat_length_checked(bytes: Seq<u8>)
    requires
        bytes.len() != 2500,
    ensures
        checked_grid(bytes) == Err::<Seq<u8>, CostMatrixError>(
            CostMatrixError::LengthMismatch { expected: 2500, actual: bytes.len() as usize },
        ),
{
}

/// Turning a dense matrix into its sparse form and back gives the same
/// matrix: the sparse form leaves out the zeros, and the dense form fills
/// them in.
pub proof fn lemma_dense_sparse_round_trip(m: LocalCostMatrix)
    ensures
        grid_of_sparse(sparse_of_grid(m@)) == m@,
{
    m.lemma_len();
    let grid = m@;
    assert forall|i: int| 0 <= i < 2500 implies grid_of_sparse(sparse_of_grid(grid))[i]
        == grid[i] by {
        lemma_linearization(0, 0, i);
    }
    assert(grid_of_sparse(sparse_of_grid(grid)) =~= grid);
}

/// The dense form of sparse entries gives every tile of the room the cost
/// that the entries give it: the stored cost, or 0 without an entry.
pub proof fn lemma_dense_form_keeps_costs(entries: Map<(u8, u8), u8>, x: u8, y: u8)
    requires
        in_room(x, y),
    ensures
        grid_of_sparse(entries)[linear_index(x, y)] == if entries.contains_key((x, y)) {
            entries[(x, y)]
        } else {
            0
        },
{
    lemma_linearization(x, y, 0);
}

/// The sparse form of a dense grid gives every tile of the room the cost
/// that the grid gives it: a zero cost is the absence of an entry.
pub proof fn lemma_sparse_form_keeps_costs(grid: Seq<u8>, x: u8, y: u8)
    requires
        in_room(x, y),
    ensures
        grid[linear_index(x, y)] == if sparse_of_grid(grid).contains_key((x, y)) {
            sparse_of_grid(grid)[(x, y)]
        } else {
            0
        },
        sparse_of_grid(grid).contains_key((x, y)) ==> sparse_of_grid(grid)[(x, y)] != 0,
{
}

/// A dense source never clears a cost: where it holds 0 the merged grid
/// keeps the cost of the target, and where it holds anything else the
/// merged grid takes it.
pub proof fn lemma_dense_merge_precedence(dst: Seq<u8>, src: Seq<u8>, x: u8, y: u8)
    requires
        in_room(x, y),
    ensures
        src[linear_index(x, y)] == 0 ==> grid_merge(dst, src)[linear_index(x, y)] == dst[linear_index(
            x,
            y,
        )],
        src[linear_index(x, y)] != 0 ==> grid_merge(dst, src)[linear_index(x, y)] == src[linear_index(
            x,
            y,
        )],
{
}

/// A sparse source overwrites with every entry it stores, a stored zero
/// included, and leaves every other tile as it was.
pub proof fn lemma_sparse_merge_precedence(dst: Seq<u8>, src: Map<(u8, u8), u8>, x: u8, y: u8)
    requires
        in_room(x, y),
    ensures
        src.contains_key((x, y)) ==> grid_overlay(dst, src)[linear_index(x, y)] == src[(x, y)],
        !src.contains_key((x, y)) ==> grid_overlay(dst, src)[linear_index(x, y)] == dst[linear_index(
            x,
            y,
        )],
{
    lemma_linearization(x, y, 0);
}

/// Merged into sparse entries, a sparse source overwrites with every entry
/// it stores, a stored zero included, and leaves every other entry as it
/// was.
pub proof fn lemma_sparse_into_sparse_precedence(
    dst: Map<(u8, u8), u8>,
    src: Map<(u8, u8), u8>,
    p: (u8, u8),
)
    ensures
        src.contains_key(p) ==> dst.union_prefer_right(src).contains_pair(p, src[p]),
        !src.contains_key(p) ==> (dst.union_prefer_right(src).contains_key(p) <==> dst.contains_key(
            p,
        )),
        !src.contains_key(p) && dst.contains_key(p) ==> dst.union_prefer_right(src)[p] == dst[p],
{
}

/// Merged into sparse entries, a dense source adds or overwrites where it
/// holds a cost other than 0, and where it holds 0 it neither adds an entry
/// nor clears one.
pub proof fn lemma_dense_into_sparse_precedence(dst: Map<(u8, u8), u8>, src: Seq<u8>, x: u8, y: u8)
    requires
        in_room(x, y),
    ensures
        src[linear_index(x, y)] != 0 ==> dst.union_prefer_right(sparse_of_grid(src)).contains_pair(
            (x, y),
            src[linear_index(x, y)],
        ),
        src[linear_index(x, y)] == 0 ==> (dst.union_prefer_right(sparse_of_grid(src)).contains_key(
            (x, y),
        ) <==> dst.contains_key((x, y))),
        src[linear_index(x, y)] == 0 && dst.contains_key((x, y)) ==> dst.union_prefer_right(
            sparse_of_grid(src),
        )[(x, y)] == dst[(x, y)],
{
}

/// A cost that was stored for a tile of the room is handed out with the
/// entries, a stored zero like any other cost, and it is the cost that the
/// tile has in the dense form.
pub proof fn lemma_stored_entry_is_kept(
    before: Map<(u8, u8), u8>,
    x: u8,
    y: u8,
    val: u8,
    entries: Seq<((u8, u8), u8)>,
)
    requires
        in_room(x, y),
        enumerates(entries, before.insert((x, y), val)),
    ensures
        exists|i: int| 0 <= i < entries.len() && #[trigger] entries[i] == ((x, y), val),
        grid_of_sparse(before.insert((x, y), val))[linear_index(x, y)] == val,
{
    let after = before.insert((x, y), val);
    assert(after.contains_key((x, y)));
    let i = choose|i: int| 0 <= i < entries.len() && (#[trigger] entries[i]).0 == (x, y);
    assert(after.contains_pair(entries[i].0, entries[i].1));
    assert(entries[i] == ((x, y), val));
    lemma_linearization(x, y, 0);
}

/// A list that holds the entries of a map, each tile once, is as long as
/// the map has entries.
pub proof fn lemma_enumeration_len(entries: Seq<((u8, u8), u8)>, m: Map<(u8, u8), u8>)
    requires
        enumerates(entries, m),
    ensures
        m.dom().finite(),
        entries.len() == m.len(),
{
    let tiles = entries.map_values(|e: ((u8, u8), u8)| e.0);
    assert forall|i: int, j: int| 0 <= i < tiles.len() && 0 <= j < tiles.len() && i != j implies tiles[i]
        != tiles[j] by {
        if i < j {
            assert(entries[i].0 != entries[j].0);
        } else {
            assert(entries[j].0 != entries[i].0);
        }
    }
    assert forall|p: (u8, u8)| tiles.to_set().contains(p) <==> m.dom().contains(p) by {
        if tiles.to_set().contains(p) {
            let i = choose|i: int| 0 <= i < tiles.len() && tiles[i] == p;
            assert(m.contains_pair(entries[i].0, entries[i].1));
        }
        if m.dom().contains(p) {
            let i = choose|i: int| 0 <= i < entries.len() && (#[trigger] entries[i]).0 == p;
            assert(tiles[i] == p);
        }
    }
    assert(tiles.to_set() =~= m.dom());
    tiles.unique_seq_to_set();
    vstd::seq_lib::seq_to_set_is_finite(tiles);
}

/// What the first `n` entries of a list build up, where the list holds
/// tiles of the room only and each tile once: the entries themselves.
proof fn lemma_entries_prefix(entries: Seq<((u8, u8), u8)>, n: int)
    requires
        0 <= n <= entries.len(),
        all_in_room(entries),
        forall|i: int, j: int|
            0 <= i < j < entries.len() ==> (#[trigger] entries[i]).0 != (#[trigger] entries[j]).0,
    ensures
        forall|p: (u8, u8)|
            sparse_of_entries(entries.take(n)).contains_key(p) <==> exists|i: int|
                0 <= i < n && (#[trigger] entries[i]).0 == p,
        forall|i: int|
            0 <= i < n ==> sparse_of_entries(entries.take(n))[(#[trigger] entries[i]).0]
                == entries[i].1,
    decreases n,
{
    if n > 0 {
        lemma_entries_prefix(entries, n - 1);
        let built = sparse_of_entries(entries.take(n));
        let earlier = sparse_of_entries(entries.take(n - 1));
        assert(entries.take(n).drop_last() =~= entries.take(n - 1));
        assert(entries.take(n).last() == entries[n - 1]);
        assert(in_room(entries[n - 1].0.0, entries[n - 1].0.1));
        assert(built == earlier.insert(entries[n - 1].0, entries[n - 1].1));
        assert forall|p: (u8, u8)| built.contains_key(p) <==> exists|i: int|
            0 <= i < n && (#[trigger] entries[i]).0 == p by {
            if built.contains_key(p) {
                if p == entries[n - 1].0 {
                    assert(0 <= n - 1 < n && entries[n - 1].0 == p);
                } else {
                    assert(earlier.contains_key(p));
                    let i = choose|i: int| 0 <= i < n - 1 && (#[trigger] entries[i]).0 == p;
                    assert(0 <= i < n && entries[i].0 == p);
                }
            }
            if exists|i: int| 0 <= i < n && (#[trigger] entries[i]).0 == p {
                let i = choose|i: int| 0 <= i < n && (#[trigger] entries[i]).0 == p;
                if i < n - 1 {
                    assert(0 <= i < n - 1 && entries[i].0 == p);
                    assert(earlier.contains_key(p));
                }
            }
        }
        assert forall|i: int| 0 <= i < n implies built[(#[trigger] entries[i]).0]
            == entries[i].1 by {
            if i < n - 1 {
                assert(entries[i].0 != entries[n - 1].0);
            }
        }
    } else {
        assert(entries.take(0).len() == 0);
    }
}

/// The entries that a sparse matrix hands out build up the same matrix
/// again: a list that holds the entries of a map, each tile once and every
/// tile inside the room, is read back as that map.
pub proof fn lemma_entries_round_trip(entries: Seq<((u8, u8), u8)>, m: Map<(u8, u8), u8>)
    requires
        enumerates(entries, m),
        forall|p: (u8, u8)| m.contains_key(p) ==> in_room(p.0, p.1),
    ensures
        all_in_room(entries),
        sparse_of_entries(entries) == m,
{
    assert forall|i: int| 0 <= i < entries.len() implies in_room(
        (#[trigger] entries[i]).0.0,
        entries[i].0.1,
    ) by {
        assert(m.contains_pair(entries[i].0, entries[i].1));
    }
    lemma_entries_prefix(entries, entries.len() as int);
    assert(entries.take(entries.len() as int) =~= entries);
    let built = sparse_of_entries(entries);
    assert forall|p: (u8, u8)| built.contains_key(p) <==> m.contains_key(p) by {
        if built.contains_key(p) {
            let i = choose|i: int| 0 <= i < entries.len() && (#[trigger] entries[i]).0 == p;
            assert(m.contains_pair(entries[i].0, entries[i].1));
        }
    }
    assert forall|p: (u8, u8)| built.contains_key(p) implies built[p] == m[p] by {
        let i = choose|i: int| 0 <= i < entries.len() && (#[trigger] entries[i]).0 == p;
        assert(m.contains_pair(entries[i].0, entries[i].1));
    }
    assert(built =~= m);
}


/// What a list of entries builds up holds a tile exactly if the tile lies
/// inside the room and the list names it, and it holds for the tile the
/// cost of the last entry that names it.
pub proof fn lemma_bulk_entries(entries: Seq<((u8, u8), u8)>, p: (u8, u8))
    ensures
        sparse_of_entries(entries).contains_key(p) <==> in_room(p.0, p.1) && exists|i: int|
            0 <= i < entries.len() && (#[trigger] entries[i]).0 == p,
        sparse_of_entries(entries).contains_key(p) ==> exists|i: int|
            0 <= i < entries.len() && #[trigger] entries[i] == (p, sparse_of_entries(entries)[p])
                && forall|j: int| i < j < entries.len() ==> (#[trigger] entries[j]).0 != p,
    decreases entries.len(),
{
    if entries.len() > 0 {
        let earlier = entries.drop_last();
        let last = entries.last();
        let n = entries.len() - 1;
        lemma_bulk_entries(earlier, p);
        let built = sparse_of_entries(entries);
        if exists|i: int| 0 <= i < earlier.len() && (#[trigger] earlier[i]).0 == p {
            let i = choose|i: int| 0 <= i < earlier.len() && (#[trigger] earlier[i]).0 == p;
            assert(entries[i].0 == p);
        }
        if exists|i: int| 0 <= i < entries.len() && (#[trigger] entries[i]).0 == p {
            let i = choose|i: int| 0 <= i < entries.len() && (#[trigger] entries[i]).0 == p;
            if i < n {
                assert(earlier[i].0 == p);
            }
        }
        if built.contains_key(p) {
            if last.0 == p {
                assert(entries[n] == (p, built[p]));
            } else {
                let i = choose|i: int|
                    0 <= i < earlier.len() && #[trigger] earlier[i] == (
                        p,
                        sparse_of_entries(earlier)[p],
                    ) && forall|j: int| i < j < earlier.len() ==> (#[trigger] earlier[j]).0 != p;
                assert(entries[i] == (p, built[p]));
                assert forall|j: int| i < j < entries.len() implies (#[trigger] entries[j]).0
                    != p by {
                    if j < n {
                        assert(earlier[j].0 != p);
                    }
                }
            }
        }
    }
}

} // verus!
