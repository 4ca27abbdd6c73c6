use splashsurf_lib::marching_cubes::{EdgeVertex, touched_cells, triangulate};
use splashsurf_lib::{AxisAlignedBoundingBox3d, UniformGrid};

fn test_grid() -> UniformGrid<f64> {
    let aabb = AxisAlignedBoundingBox3d::new([0.0, 0.0, 0.0], [1.0, 1.0, 0.5]);
    UniformGrid::new(&aabb, 0.5, [2, 2, 1]).unwrap()
}

fn edge_id(grid: &UniformGrid<f64>, v: &EdgeVertex) -> i64 {
    3 * grid.flatten_point_index(&v.base) + v.axis as i64
}

#[test]
fn test_triangulate_single_cube() {
    let grid = test_grid();
    // Only corner 0 of the cell is inside: one triangle on edges 0, 8, 3,
    // reversed to [3, 8, 0].
    let flags = [true, false, false, false, false, false, false, false];
    let (vertices, triangles) = triangulate(&grid, &vec![([0, 0, 0], flags)]).unwrap();
    assert_eq!(triangles.len(), 1);
    assert_eq!(vertices.len(), 3);
    for t in &triangles {
        for k in t {
            assert!(*k < vertices.len());
        }
    }
    // Edge 3 runs along the second axis, edge 8 along the third, edge 0
    // along the first, all from the cell's lowest corner.
    assert_eq!(vertices[0], EdgeVertex { base: [0, 0, 0], axis: 1 });
    assert_eq!(vertices[1], EdgeVertex { base: [0, 0, 0], axis: 2 });
    assert_eq!(vertices[2], EdgeVertex { base: [0, 0, 0], axis: 0 });
}

#[test]
fn test_triangulate_empty_and_full_cubes_yield_nothing() {
    let grid = test_grid();
    let cubes = vec![([0, 0, 0], [false; 8]), ([1, 0, 0], [true; 8])];
    let (vertices, triangles) = triangulate(&grid, &cubes).unwrap();
    assert!(vertices.is_empty());
    assert!(triangles.is_empty());
}

#[test]
fn test_triangulate_deduplicates_shared_edge_vertices() {
    let grid = test_grid();
    // The corner shared by the two cells is inside in both: the vertices on
    // the shared face's edges must be emitted once, not twice.
    let flags_left = [false, true, false, false, false, false, false, false];
    let flags_right = [true, false, false, false, false, false, false, false];
    let cubes = vec![([0, 0, 0], flags_left), ([1, 0, 0], flags_right)];
    let (vertices, triangles) = triangulate(&grid, &cubes).unwrap();
    assert_eq!(triangles.len(), 2);

    // All emitted vertices lie on pairwise distinct grid edges.
    let mut ids: Vec<i64> = vertices.iter().map(|v| edge_id(&grid, v)).collect();
    let n_vertices = ids.len();
    ids.sort();
    ids.dedup();
    assert_eq!(ids.len(), n_vertices);

    // The two triangles share the two vertices on the common face: four
    // vertices in total, not six.
    assert_eq!(n_vertices, 4);
    let shared: Vec<usize> = triangles[0]
        .iter()
        .filter(|k| triangles[1].contains(k))
        .copied()
        .collect();
    assert_eq!(shared.len(), 2);
}

#[test]
fn test_triangulate_counts_match_case_table() {
    let grid = test_grid();
    for case in 0..256usize {
        let flags = splashsurf_lib::marching_cubes::marching_cubes_lut::index_to_flags(case);
        let expected =
            splashsurf_lib::marching_cubes::marching_cubes_lut::marching_cubes_triangulation_iter(
                &flags,
            )
            .len();
        let (_, triangles) = triangulate(&grid, &vec![([0, 0, 0], flags)]).unwrap();
        assert_eq!(triangles.len(), expected);
    }
}

#[test]
fn test_touched_cells_enumeration() {
    let grid = test_grid();
    // The grid point (1,1,1) is a corner of every cell of the 2x2x1 grid;
    // the point (0,0,0) only of cell (0,0,0).
    let cells = touched_cells(&grid, &vec![[1, 1, 1], [0, 0, 0]]);
    assert_eq!(cells.len(), 4);
    for w in cells.windows(2) {
        assert!(w[0] < w[1]);
    }
    let triples: Vec<[i64; 3]> = cells
        .iter()
        .map(|c| grid.try_unflatten_cell_index(*c).unwrap())
        .collect();
    assert_eq!(triples, vec![[0, 0, 0], [0, 1, 0], [1, 0, 0], [1, 1, 0]]);
    // A repeated point adds no duplicate cells.
    let again = touched_cells(&grid, &vec![[1, 1, 1], [1, 1, 1], [0, 0, 0]]);
    assert_eq!(again, cells);
}

#[test]
fn test_cell_index_unflatten_roundtrip() {
    let grid = test_grid();
    for i in 0..2 {
        for j in 0..2 {
            let flat = grid.flatten_cell_index(&[i, j, 0]);
            assert_eq!(grid.try_unflatten_cell_index(flat), Some([i, j, 0]));
        }
    }
    assert_eq!(grid.try_unflatten_cell_index(-1), None);
    assert_eq!(grid.try_unflatten_cell_index(4), None);
}
