use splashsurf_lib::{AxisAlignedBoundingBox3d, GridConstructionError, UniformGrid};

fn unit_aabb() -> AxisAlignedBoundingBox3d<f64> {
    AxisAlignedBoundingBox3d::new([0.0, 0.0, 0.0], [1.0, 1.0, 1.0])
}

#[test]
fn test_grid_construction() {
    let grid = UniformGrid::new(&unit_aabb(), 0.25, [4, 5, 6]).unwrap();
    assert_eq!(grid.n_cells_per_dim, [4, 5, 6]);
    assert_eq!(grid.n_points_per_dim, [5, 6, 7]);
    assert_eq!(grid.points_total(), 5 * 6 * 7);
    assert_eq!(grid.aabb.min, [0.0, 0.0, 0.0]);
    assert_eq!(grid.cell_size, 0.25);
}

#[test]
fn test_grid_construction_invalid_domain() {
    assert_eq!(
        UniformGrid::new(&unit_aabb(), 0.25, [0, 4, 4]).unwrap_err(),
        GridConstructionError::InvalidDomain
    );
    assert_eq!(
        UniformGrid::new(&unit_aabb(), 0.25, [4, -3, 4]).unwrap_err(),
        GridConstructionError::InvalidDomain
    );
}

#[test]
fn test_grid_construction_index_overflow() {
    assert_eq!(
        UniformGrid::new(&unit_aabb(), 0.25, [3_000_000_000, 3_000_000_000, 1]).unwrap_err(),
        GridConstructionError::IndexOverflow
    );
    assert_eq!(
        UniformGrid::new(&unit_aabb(), 0.25, [i64::MAX, 1, 1]).unwrap_err(),
        GridConstructionError::IndexOverflow
    );
}

#[test]
fn test_point_index_roundtrip() {
    // Flattening a point index and inverting the flat index recovers the
    // original triple, for every point of the grid.
    let grid = UniformGrid::new(&unit_aabb(), 0.25, [2, 3, 4]).unwrap();
    let mut seen = Vec::new();
    for i in 0..3 {
        for j in 0..4 {
            for k in 0..5 {
                let flat = grid.flatten_point_index(&[i, j, k]);
                assert_eq!(flat, (i * 4 + j) * 5 + k);
                assert_eq!(grid.try_unflatten_point_index(flat), Some([i, j, k]));
                assert!(!seen.contains(&flat));
                seen.push(flat);
            }
        }
    }
    assert_eq!(seen.len(), 3 * 4 * 5);
    assert_eq!(grid.try_unflatten_point_index(-1), None);
    assert_eq!(grid.try_unflatten_point_index(3 * 4 * 5), None);
}

#[test]
fn test_cell_index_roundtrip() {
    let grid = UniformGrid::new(&unit_aabb(), 0.25, [2, 3, 4]).unwrap();
    let mut seen = Vec::new();
    for i in 0..2 {
        for j in 0..3 {
            for k in 0..4 {
                let flat = grid.flatten_cell_index(&[i, j, k]);
                assert_eq!(flat, (i * 3 + j) * 4 + k);
                assert!(!seen.contains(&flat));
                seen.push(flat);
            }
        }
    }
    assert_eq!(seen.len(), 2 * 3 * 4);
}

#[test]
fn test_shared_point_has_one_flat_index() {
    // The corner shared by the cells (0,0,0) and (1,0,0) gets the same flat
    // point index whichever cell it is seen from.
    let grid = UniformGrid::new(&unit_aabb(), 0.5, [2, 2, 2]).unwrap();
    let corner_of_first_cell = [1, 0, 0];
    let corner_of_second_cell = [1, 0, 0];
    assert_eq!(
        grid.flatten_point_index(&corner_of_first_cell),
        grid.flatten_point_index(&corner_of_second_cell)
    );
}
