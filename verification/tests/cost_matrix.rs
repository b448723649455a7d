use screeps_game_api::local::cost_matrix::{
    idx_as_pos, pos_as_idx, CostMatrixError, LocalCostMatrix, SparseCostMatrix,
};

fn patterned_bytes() -> Vec<u8> {
    (0..2500usize).map(|i| ((i * 7 + 3) % 256) as u8).collect()
}

#[test]
fn dense_new_is_all_zero() {
    let m = LocalCostMatrix::new();
    assert!(m.get_bits().iter().all(|b| *b == 0));
    assert_eq!(m.get_bits().len(), 2500);
    let d = LocalCostMatrix::default();
    assert_eq!(d.get_bits(), m.get_bits());
}

#[test]
fn dense_bytes_round_trip() {
    let bytes = patterned_bytes();
    let m = LocalCostMatrix::deserialize(bytes.clone()).unwrap();
    assert_eq!(m.serialize(), bytes);
    let back: Vec<u8> = m.into();
    assert_eq!(back, bytes);
}

#[test]
fn dense_sparse_dense_round_trip() {
    let mut bytes = patterned_bytes();
    for i in (0..2500).step_by(3) {
        bytes[i] = 0;
    }
    let m = LocalCostMatrix::deserialize(bytes.clone()).unwrap();
    let sparse = SparseCostMatrix::from(m.clone());
    let stored = sparse.iter();
    assert_eq!(stored.len(), bytes.iter().filter(|b| **b != 0).count());
    assert!(stored.iter().all(|(_, v)| *v != 0));
    let back = LocalCostMatrix::from(sparse);
    assert_eq!(back.get_bits(), m.get_bits());
    assert_eq!(back.serialize(), bytes);
}

#[test]
fn sparse_keeps_explicit_zero() {
    let mut s = SparseCostMatrix::new();
    assert_eq!(s.iter(), vec![]);
    assert_eq!(s.set(3, 4, 0), Ok(()));
    assert_eq!(s.iter(), vec![((3, 4), 0)]);
    assert_eq!(s.get(3, 4), Ok(0));
    assert_eq!(s.get(4, 3), Ok(0));
    let d = LocalCostMatrix::from(s);
    assert_eq!(d.get(3, 4), Ok(0));
    assert!(d.get_bits().iter().all(|b| *b == 0));
}

#[test]
fn dense_merge_from_dense_keeps_cost_where_source_is_zero() {
    let mut this = LocalCostMatrix::new();
    this.set(0, 0, 5).unwrap();
    let mut other = LocalCostMatrix::new();
    other.set(0, 0, 0).unwrap();
    other.set(1, 1, 9).unwrap();
    this.merge_from_dense(&other);
    assert_eq!(this.get(0, 0), Ok(5));
    assert_eq!(this.get(1, 1), Ok(9));
    let nonzero = this.get_bits().iter().filter(|b| **b != 0).count();
    assert_eq!(nonzero, 2);
}

#[test]
fn dense_merge_from_dense_overwrites_with_nonzero() {
    let mut this = LocalCostMatrix::new();
    this.set(2, 2, 5).unwrap();
    let mut other = LocalCostMatrix::new();
    other.set(2, 2, 200).unwrap();
    this.merge_from_dense(&other);
    assert_eq!(this.get(2, 2), Ok(200));
}

#[test]
fn sparse_merge_from_sparse_takes_explicit_zero() {
    let mut this = SparseCostMatrix::new();
    this.set(0, 0, 5).unwrap();
    let mut other = SparseCostMatrix::new();
    other.set(0, 0, 0).unwrap();
    this.merge_from_sparse(&other);
    assert_eq!(this.iter(), vec![((0, 0), 0)]);
    assert_eq!(this.get(0, 0), Ok(0));
}

#[test]
fn dense_merge_from_sparse_takes_explicit_zero() {
    let mut this = LocalCostMatrix::new();
    this.set(0, 0, 5).unwrap();
    this.set(7, 8, 6).unwrap();
    let mut other = SparseCostMatrix::new();
    other.set(0, 0, 0).unwrap();
    other.set(49, 49, 255).unwrap();
    this.merge_from_sparse(&other);
    assert_eq!(this.get(0, 0), Ok(0));
    assert_eq!(this.get(7, 8), Ok(6));
    assert_eq!(this.get(49, 49), Ok(255));
    assert_eq!(this.get_bits()[2499], 255);
}

#[test]
fn sparse_merge_from_dense_skips_zero() {
    let mut this = SparseCostMatrix::new();
    this.set(0, 0, 5).unwrap();
    this.set(1, 1, 1).unwrap();
    let mut other = LocalCostMatrix::new();
    other.set(1, 1, 9).unwrap();
    other.set(2, 3, 4).unwrap();
    this.merge_from_dense(&other);
    let mut stored = this.iter();
    stored.sort();
    assert_eq!(stored, vec![((0, 0), 5), ((1, 1), 9), ((2, 3), 4)]);
}

#[test]
fn checked_access_rejects_tiles_outside_the_room() {
    let mut dense = LocalCostMatrix::new();
    assert_eq!(dense.get(50, 0), Err(CostMatrixError::OutOfBounds { x: 50, y: 0 }));
    assert_eq!(dense.set(0, 50, 1), Err(CostMatrixError::OutOfBounds { x: 0, y: 50 }));
    assert_eq!(dense.get(255, 255), Err(CostMatrixError::OutOfBounds { x: 255, y: 255 }));
    assert!(dense.get_bits().iter().all(|b| *b == 0));
    assert_eq!(dense.set(49, 49, 1), Ok(()));

    let mut sparse = SparseCostMatrix::new();
    assert_eq!(sparse.get(50, 0), Err(CostMatrixError::OutOfBounds { x: 50, y: 0 }));
    assert_eq!(sparse.set(0, 50, 1), Err(CostMatrixError::OutOfBounds { x: 0, y: 50 }));
    assert_eq!(sparse.iter(), vec![]);
    assert_eq!(sparse.set(49, 49, 1), Ok(()));
    assert_eq!(sparse.get(49, 49), Ok(1));
}

#[test]
fn bulk_construction_drops_tiles_outside_the_room() {
    let s = SparseCostMatrix::from(vec![((50, 0), 7), ((1, 2), 3), ((0, 50), 9), ((4, 5), 0)]);
    let mut stored = s.iter();
    stored.sort();
    assert_eq!(stored, vec![((1, 2), 3), ((4, 5), 0)]);
}

#[test]
fn bulk_construction_keeps_the_later_of_two_entries() {
    let s = SparseCostMatrix::from(vec![((1, 2), 3), ((1, 2), 8)]);
    assert_eq!(s.iter(), vec![((1, 2), 8)]);
}

#[test]
fn dense_deserialize_checks_the_length() {
    assert_eq!(
        LocalCostMatrix::deserialize(vec![1; 2499]).err(),
        Some(CostMatrixError::LengthMismatch { expected: 2500, actual: 2499 })
    );
    assert_eq!(
        LocalCostMatrix::deserialize(vec![1; 2501]).err(),
        Some(CostMatrixError::LengthMismatch { expected: 2500, actual: 2501 })
    );
    assert_eq!(
        LocalCostMatrix::deserialize(vec![]).err(),
        Some(CostMatrixError::LengthMismatch { expected: 2500, actual: 0 })
    );
    assert!(LocalCostMatrix::deserialize(vec![255; 2500]).is_ok());
    assert!(LocalCostMatrix::deserialize(vec![0; 2500]).is_ok());
    assert!(LocalCostMatrix::deserialize(patterned_bytes()).is_ok());
    assert!(LocalCostMatrix::try_from(patterned_bytes()).is_ok());
    assert_eq!(
        LocalCostMatrix::try_from(vec![0u8; 3]).err(),
        Some(CostMatrixError::LengthMismatch { expected: 2500, actual: 3 })
    );
}

#[test]
fn linearization_is_x_major() {
    let mut m = LocalCostMatrix::new();
    m.set(1, 0, 11).unwrap();
    assert_eq!(m.get_bits()[50], 11);
    assert_eq!(m.serialize()[50], 11);
    m.set(0, 1, 22).unwrap();
    assert_eq!(m.get_bits()[1], 22);
    assert_eq!(pos_as_idx(1, 0), 50);
    assert_eq!(pos_as_idx(0, 1), 1);
    assert_eq!(pos_as_idx(49, 49), 2499);
    assert_eq!(idx_as_pos(50), (1, 0));
    assert_eq!(idx_as_pos(1), (0, 1));
    assert_eq!(idx_as_pos(2499), (49, 49));
    for idx in 0..2500 {
        let (x, y) = idx_as_pos(idx);
        assert_eq!(pos_as_idx(x, y), idx);
    }
}

#[test]
fn unchecked_access_agrees_with_checked_access() {
    let mut m = LocalCostMatrix::new();
    m.set_unchecked(12, 34, 56);
    assert_eq!(m.get_unchecked(12, 34), 56);
    assert_eq!(m.get(12, 34), Ok(56));
    assert_eq!(m.get_bits()[12 * 50 + 34], 56);
}

#[test]
fn dense_iter_follows_the_flat_layout() {
    let m = LocalCostMatrix::deserialize(patterned_bytes()).unwrap();
    let entries = m.iter();
    assert_eq!(entries.len(), 2500);
    assert_eq!(entries[0], ((0, 0), 3));
    assert_eq!(entries[1], ((0, 1), 10));
    assert_eq!(entries[50], ((1, 0), ((50 * 7 + 3) % 256) as u8));
    for (idx, (pos, val)) in entries.iter().enumerate() {
        assert_eq!(*pos, idx_as_pos(idx));
        assert_eq!(*val, m.get_bits()[idx]);
    }
    assert_eq!(m.iter(), entries);
}

#[test]
fn dense_iter_mut_replaces_every_tile() {
    let mut m = LocalCostMatrix::new();
    m.set(1, 2, 3).unwrap();
    m.iter_mut(|pos: (u8, u8), val: u8| if pos == (1, 2) { val + 1 } else { pos.1 });
    assert_eq!(m.get(1, 2), Ok(4));
    assert_eq!(m.get(0, 0), Ok(0));
    assert_eq!(m.get(30, 17), Ok(17));
    assert_eq!(m.get(49, 49), Ok(49));
}

#[test]
fn sparse_iter_mut_replaces_stored_entries_only() {
    let mut s = SparseCostMatrix::new();
    s.set(1, 2, 3).unwrap();
    s.set(4, 5, 0).unwrap();
    s.iter_mut(|pos: (u8, u8), val: u8| val + pos.0);
    let mut stored = s.iter();
    stored.sort();
    assert_eq!(stored, vec![((1, 2), 4), ((4, 5), 4)]);
    assert_eq!(s.get(0, 0), Ok(0));
}

#[test]
fn sparse_deserialize_rejects_a_tile_outside_the_room() {
    assert_eq!(
        SparseCostMatrix::deserialize(vec![((1, 1), 1), ((50, 0), 2), ((0, 77), 3)]).err(),
        Some(CostMatrixError::InvalidCoordinate { x: 50, y: 0 })
    );
    assert_eq!(
        SparseCostMatrix::deserialize(vec![((49, 50), 1)]).err(),
        Some(CostMatrixError::InvalidCoordinate { x: 49, y: 50 })
    );
    let ok = SparseCostMatrix::deserialize(vec![((49, 49), 1), ((0, 0), 0)]).unwrap();
    let mut stored = ok.iter();
    stored.sort();
    assert_eq!(stored, vec![((0, 0), 0), ((49, 49), 1)]);
    assert!(SparseCostMatrix::deserialize(vec![]).unwrap().iter().is_empty());
}

#[test]
fn sparse_serialize_round_trip() {
    let mut s = SparseCostMatrix::new();
    s.set(1, 2, 3).unwrap();
    s.set(4, 5, 0).unwrap();
    s.set(49, 0, 255).unwrap();
    let entries = s.serialize();
    let back = SparseCostMatrix::deserialize(entries.clone()).unwrap();
    let mut a = entries;
    let mut b = back.serialize();
    a.sort();
    b.sort();
    assert_eq!(a, b);
    assert_eq!(a, vec![((1, 2), 3), ((4, 5), 0), ((49, 0), 255)]);
}

#[test]
fn sparse_from_flat_buffer_takes_nonzero_bytes() {
    let mut bytes = vec![0u8; 2500];
    bytes[0] = 1;
    bytes[51] = 2;
    bytes[2499] = 3;
    let s = SparseCostMatrix::try_from(bytes).unwrap();
    let mut stored = s.iter();
    stored.sort();
    assert_eq!(stored, vec![((0, 0), 1), ((1, 1), 2), ((49, 49), 3)]);
    assert_eq!(
        SparseCostMatrix::try_from(vec![1u8; 2499]).err(),
        Some(CostMatrixError::LengthMismatch { expected: 2500, actual: 2499 })
    );
    assert_eq!(
        SparseCostMatrix::try_from(vec![1u8; 2501]).err(),
        Some(CostMatrixError::LengthMismatch { expected: 2500, actual: 2501 })
    );
}

#[test]
fn dense_from_array_takes_the_buffer_as_it_is() {
    let mut bits = [0u8; 2500];
    bits[123] = 45;
    let m = LocalCostMatrix::from(bits);
    assert_eq!(m.get_bits(), &bits);
    assert_eq!(m.get(2, 23), Ok(45));
}

#[test]
fn clones_are_independent() {
    let mut a = LocalCostMatrix::new();
    a.set(1, 1, 1).unwrap();
    let b = a.clone();
    a.set(1, 1, 2).unwrap();
    assert_eq!(b.get(1, 1), Ok(1));
    assert_eq!(a.get(1, 1), Ok(2));

    let mut s = SparseCostMatrix::new();
    s.set(1, 1, 1).unwrap();
    let t = s.clone();
    s.set(2, 2, 2).unwrap();
    assert_eq!(t.iter(), vec![((1, 1), 1)]);
    assert_eq!(s.iter().len(), 2);
    assert!(SparseCostMatrix::default().iter().is_empty());
}
