//! Triangulation of density maps using marching cubes.
//!
//! The geometry of the iso-surface (where on a cube edge a mesh vertex
//! lies) is a floating-point concern of the caller. The connectivity is
//! discrete and lives here: every cube touched by the density map is
//! classified by its eight corner flags, the case table names the cut
//! edges, and each cut edge becomes one mesh vertex shared by every cube
//! that meets the edge. Vertices are identified by their global edge: the
//! grid point at the lower end of the edge together with the edge's axis,
//! so adjacent cubes agree on the identity of a shared vertex and the
//! triangulation is watertight across cube borders.

pub mod marching_cubes_lut;

use vstd::prelude::*;
use vstd::arithmetic::div_mod::lemma_fundamental_div_mod_converse;
use std::collections::HashMap;
use crate::marching_cubes::marching_cubes_lut::{
    case_triangles, flags_to_index_spec, marching_cubes_triangulation_iter, mc_case_spec,
};
use crate::uniform_grid::UniformGrid;

verus! {

broadcast use vstd::std_specs::hash::group_hash_axioms;

/// Error of the connectivity stage of the triangulator.
#[derive(Clone, Copy, Debug, PartialEq, Eq, Structural)]
pub enum TriangulationError {
    /// A case row named an edge outside the cube; the classic table never
    /// does, but the triangulator does not trust table data.
    InvalidCaseEntry,
}

/// A mesh vertex of the triangulation, identified by the grid edge it lies
/// on: the edge from the grid point `base` to the grid point one step along
/// `axis`.
#[derive(Clone, Copy, Debug, PartialEq, Eq)]
pub struct EdgeVertex {
    /// Grid point at the lower end of the edge.
    pub base: [i64; 3],
    /// Axis of the edge.
    pub axis: usize,
}

/// Offset of the lower-end corner, and the axis, of each of the twelve
/// cube edges, in the numbering of the case table.
pub open spec fn edge_base_offset_spec(edge: int) -> ([i64; 3], usize) {
    if edge == 0 {
        ([0, 0, 0], 0)
    } else if edge == 1 {
        ([1, 0, 0], 1)
    } else if edge == 2 {
        ([0, 1, 0], 0)
    } else if edge == 3 {
        ([0, 0, 0], 1)
    } else if edge == 4 {
        ([0, 0, 1], 0)
    } else if edge == 5 {
        ([1, 0, 1], 1)
    } else if edge == 6 {
        ([0, 1, 1], 0)
    } else if edge == 7 {
        ([0, 0, 1], 1)
    } else if edge == 8 {
        ([0, 0, 0], 2)
    } else if edge == 9 {
        ([1, 0, 0], 2)
    } else if edge == 10 {
        ([1, 1, 0], 2)
    } else {
        ([0, 1, 0], 2)
    }
}

/// Offset of the lower-end corner, and the axis, of the given cube edge.
pub fn edge_base_offset(edge: usize) -> (result: ([i64; 3], usize))
    requires
        edge < 12,
    ensures
        result == edge_base_offset_spec(edge as int),
        0 <= result.0[0] <= 1 && 0 <= result.0[1] <= 1 && 0 <= result.0[2] <= 1,
        result.1 < 3,
        result.0[result.1 as int] == 0,
{
    let result = if edge == 0 {
        ([0i64, 0, 0], 0usize)
    } else if edge == 1 {
        ([1, 0, 0], 1)
    } else if edge == 2 {
        ([0, 1, 0], 0)
    } else if edge == 3 {
        ([0, 0, 0], 1)
    } else if edge == 4 {
        ([0, 0, 1], 0)
    } else if edge == 5 {
        ([1, 0, 1], 1)
    } else if edge == 6 {
        ([0, 1, 1], 0)
    } else if edge == 7 {
        ([0, 0, 1], 1)
    } else if edge == 8 {
        ([0, 0, 0], 2)
    } else if edge == 9 {
        ([1, 0, 0], 2)
    } else if edge == 10 {
        ([1, 1, 0], 2)
    } else {
        ([0, 1, 0], 2)
    };
    proof {
        assert(result == edge_base_offset_spec(edge as int));
    }
    result
}

/// The global flat identifier of the grid edge a vertex lies on: three
/// edges leave every grid point, one per axis.
pub open spec fn edge_vertex_id<R: Copy>(grid: UniformGrid<R>, vertex: EdgeVertex) -> int {
    3 * grid.flat_point_index_spec(vertex.base) + vertex.axis
}

/// The vertex lies on an edge of the grid: its lower endpoint is a grid
/// point, and so is the far endpoint one step along the edge's axis.
pub open spec fn edge_vertex_in_grid<R: Copy>(grid: UniformGrid<R>, vertex: EdgeVertex) -> bool {
    &&& grid.point_in_bounds(vertex.base)
    &&& vertex.axis < 3
    &&& vertex.base[vertex.axis as int] + 1 < grid.n_points_per_dim[vertex.axis as int]
}

/// The vertex on the given edge of the given cell.
pub open spec fn cell_edge_vertex(cell: [i64; 3], edge: int) -> EdgeVertex {
    let (offset, axis) = edge_base_offset_spec(edge);
    EdgeVertex {
        base: [
            (cell[0] + offset[0]) as i64,
            (cell[1] + offset[1]) as i64,
            (cell[2] + offset[2]) as i64,
        ],
        axis,
    }
}

/// Two vertices of one flat edge identifier lie on the same grid edge.
pub proof fn lemma_edge_vertex_id_injective<R: Copy>(
    grid: UniformGrid<R>,
    v1: EdgeVertex,
    v2: EdgeVertex,
)
    requires
        grid.well_formed(),
        edge_vertex_in_grid(grid, v1),
        edge_vertex_in_grid(grid, v2),
        edge_vertex_id(grid, v1) == edge_vertex_id(grid, v2),
    ensures
        v1 == v2,
{
    let id = edge_vertex_id(grid, v1);
    let f1 = grid.flat_point_index_spec(v1.base);
    let f2 = grid.flat_point_index_spec(v2.base);
    grid.lemma_flat_point_index_in_range(v1.base);
    grid.lemma_flat_point_index_in_range(v2.base);
    lemma_fundamental_div_mod_converse(id, 3, f1, v1.axis as int);
    lemma_fundamental_div_mod_converse(id, 3, f2, v2.axis as int);
    assert(v1.axis == v2.axis && f1 == f2);
    grid.lemma_point_flattening_injective(v1.base, v2.base);
}

/// The deduplication map and the vertex list mirror each other: the map
/// holds exactly the edge identifiers of the vertices emitted so far, each
/// bound to the position of its vertex.
pub open spec fn dedup_invariant<R: Copy>(
    grid: UniformGrid<R>,
    map: Map<i64, usize>,
    vertices: Seq<EdgeVertex>,
) -> bool {
    &&& forall|id: i64|
        map.contains_key(id) ==> #[trigger] map[id] < vertices.len() && edge_vertex_id(
            grid,
            vertices[map[id] as int],
        ) == id
    &&& forall|v: int|
        0 <= v < vertices.len() ==> edge_vertex_in_grid(grid, #[trigger] vertices[v])
            && map.contains_key(edge_vertex_id(grid, vertices[v]) as i64) && map[edge_vertex_id(
            grid,
            vertices[v],
        ) as i64] == v
}

/// Number of triangles the case table yields for the given sequence of
/// classified cubes.
pub open spec fn total_case_triangles(cubes: Seq<([i64; 3], [bool; 8])>, n: int) -> int
    decreases n,
{
    if n <= 0 {
        0
    } else {
        total_case_triangles(cubes, n - 1) + case_triangles(
            mc_case_spec(flags_to_index_spec(cubes[n - 1].1@))@,
        ).len()
    }
}

/// Every triangle of the cube's case names edges of the cube.
pub open spec fn case_entries_in_range(flags: [bool; 8]) -> bool {
    let triangles = case_triangles(mc_case_spec(flags_to_index_spec(flags@))@);
    forall|t: int, k: int|
        0 <= t < triangles.len() && 0 <= k < 3 ==> 0 <= #[trigger] triangles[t][k] < 12
}

/// The triangle emitted for slot `j` of the case of cube `c` stands at its
/// place in the output and names, for each corner, the vertex on the cube
/// edge that the case's triplet names.
pub open spec fn triangle_matches_case(
    cubes: Seq<([i64; 3], [bool; 8])>,
    vertices: Seq<EdgeVertex>,
    triangles: Seq<[usize; 3]>,
    c: int,
    j: int,
) -> bool {
    let case = case_triangles(mc_case_spec(flags_to_index_spec(cubes[c].1@))@);
    let t = total_case_triangles(cubes, c) + j;
    &&& 0 <= t < triangles.len()
    &&& forall|k: int|
        0 <= k < 3 ==> #[trigger] triangles[t][k] < vertices.len() && vertices[triangles[t][k] as int]
            == cell_edge_vertex(cubes[c].0, case[j][k] as int)
}

/// A matching triangle stays matching when vertices and triangles grow at
/// the end only.
proof fn lemma_triangle_match_preserved(
    cubes: Seq<([i64; 3], [bool; 8])>,
    vertices_old: Seq<EdgeVertex>,
    vertices_new: Seq<EdgeVertex>,
    triangles_old: Seq<[usize; 3]>,
    triangles_new: Seq<[usize; 3]>,
    c: int,
    j: int,
)
    requires
        triangle_matches_case(cubes, vertices_old, triangles_old, c, j),
        vertices_old.len() <= vertices_new.len(),
        vertices_new.take(vertices_old.len() as int) == vertices_old,
        triangles_old.len() <= triangles_new.len(),
        triangles_new.take(triangles_old.len() as int) == triangles_old,
    ensures
        triangle_matches_case(cubes, vertices_new, triangles_new, c, j),
{
    let case = case_triangles(mc_case_spec(flags_to_index_spec(cubes[c].1@))@);
    let t = total_case_triangles(cubes, c) + j;
    assert(triangles_old[t] == triangles_new.take(triangles_old.len() as int)[t]);
    assert forall|k: int|
        0 <= k < 3 implies #[trigger] triangles_new[t][k] < vertices_new.len()
        && vertices_new[triangles_new[t][k] as int] == cell_edge_vertex(
        cubes[c].0,
        case[j][k] as int,
    ) by {
        assert(triangles_old[t][k] < vertices_old.len());
        let idx = triangles_old[t][k] as int;
        assert(vertices_old[idx] == vertices_new.take(vertices_old.len() as int)[idx]);
    }
}

/// Returns the position of the mesh vertex on the given edge of the given
/// cell, emitting the vertex if the edge has not been cut before.
fn vertex_for_edge<R: Copy>(
    grid: &UniformGrid<R>,
    cell: &[i64; 3],
    edge: usize,
    map: &mut HashMap<i64, usize>,
    vertices: &mut Vec<EdgeVertex>,
) -> (index: usize)
    requires
        grid.well_formed(),
        grid.cell_in_bounds(*cell),
        edge < 12,
        dedup_invariant(*grid, old(map)@, old(vertices)@),
    ensures
        dedup_invariant(*grid, final(map)@, final(vertices)@),
        old(vertices)@.len() <= final(vertices)@.len(),
        final(vertices)@.take(old(vertices)@.len() as int) == old(vertices)@,
        index < final(vertices)@.len(),
        final(vertices)@[index as int] == cell_edge_vertex(*cell, edge as int),
{
    let (offset, axis) = edge_base_offset(edge);
    let base = [cell[0] + offset[0], cell[1] + offset[1], cell[2] + offset[2]];
    let flat = grid.flatten_point_index(&base);
    let id = 3 * flat + axis as i64;
    let vertex = EdgeVertex { base, axis };
    proof {
        assert(vertex.base =~= cell_edge_vertex(*cell, edge as int).base);
        assert(vertex == cell_edge_vertex(*cell, edge as int));
        assert(edge_vertex_id(*grid, vertex) == id);
        assert(edge_vertex_in_grid(*grid, vertex));
    }
    let existing = map.get(&id);
    match existing {
        Some(index) => {
            let index = *index;
            proof {
                assert(final(vertices)@.take(old(vertices)@.len() as int) =~= old(vertices)@);
                lemma_edge_vertex_id_injective(*grid, vertices@[index as int], vertex);
            }
            index
        },
        None => {
            let index = vertices.len();
            vertices.push(vertex);
            map.insert(id, index);
            proof {
                assert(vertices@.take(old(vertices)@.len() as int) =~= old(vertices)@);
                assert forall|v: int| 0 <= v < vertices@.len() implies edge_vertex_in_grid(
                    *grid,
                    #[trigger] vertices@[v],
                ) && map@.contains_key(edge_vertex_id(*grid, vertices@[v]) as i64)
                    && map@[edge_vertex_id(*grid, vertices@[v]) as i64] == v by {
                    if v < old(vertices)@.len() {
                        assert(vertices@[v] == old(vertices)@[v]);
                    } else {
                        assert(vertices@[v] == vertex);
                    }
                }
            }
            index
        },
    }
}

/// Triangulates the classified cubes of a density map.
///
/// Every cube comes with its corner flags (corner inside the iso-surface or
/// not), in ascending flat cell order for reproducible output. The case
/// table names the cut edges of each cube; every cut edge becomes exactly
/// one mesh vertex, shared by every cube that meets the edge, and each
/// table triangle becomes one triangle over those vertices. The caller
/// interpolates the world position of each returned edge vertex.
pub fn triangulate<R: Copy>(grid: &UniformGrid<R>, cubes: &Vec<([i64; 3], [bool; 8])>) -> (result:
    Result<(Vec<EdgeVertex>, Vec<[usize; 3]>), TriangulationError>)
    requires
        grid.well_formed(),
        forall|c: int| 0 <= c < cubes@.len() ==> grid.cell_in_bounds((#[trigger] cubes@[c]).0),
    ensures
        match result {
            Ok((vertices, triangles)) => {
                &&& forall|t: int, k: int|
                    0 <= t < triangles@.len() && 0 <= k < 3 ==> #[trigger] triangles@[t][k]
                        < vertices@.len()
                &&& forall|v: int|
                    0 <= v < vertices@.len() ==> edge_vertex_in_grid(*grid, #[trigger] vertices@[v])
                &&& forall|p: int, q: int|
                    0 <= p < vertices@.len() && 0 <= q < vertices@.len() && p != q
                        ==> edge_vertex_id(*grid, #[trigger] vertices@[p]) != edge_vertex_id(
                        *grid,
                        #[trigger] vertices@[q],
                    )
                &&& triangles@.len() == total_case_triangles(cubes@, cubes@.len() as int)
                &&& forall|c: int, j: int|
                    0 <= c < cubes@.len() && 0 <= j < case_triangles(
                        mc_case_spec(flags_to_index_spec(cubes@[c].1@))@,
                    ).len() ==> #[trigger] triangle_matches_case(
                        cubes@,
                        vertices@,
                        triangles@,
                        c,
                        j,
                    )
            },
            Err(TriangulationError::InvalidCaseEntry) => exists|c: int|
                0 <= c < cubes@.len() && !case_entries_in_range((#[trigger] cubes@[c]).1),
        },
{
    let mut map: HashMap<i64, usize> = HashMap::new();
    let mut vertices: Vec<EdgeVertex> = Vec::new();
    let mut triangles: Vec<[usize; 3]> = Vec::new();
    let mut c: usize = 0;
    while c < cubes.len()
        invariant
            grid.well_formed(),
            forall|i: int| 0 <= i < cubes@.len() ==> grid.cell_in_bounds((#[trigger] cubes@[i]).0),
            c <= cubes@.len(),
            dedup_invariant(*grid, map@, vertices@),
            forall|t: int, k: int|
                0 <= t < triangles@.len() && 0 <= k < 3 ==> #[trigger] triangles@[t][k]
                    < vertices@.len(),
            triangles@.len() == total_case_triangles(cubes@, c as int),
            forall|c2: int, j2: int|
                0 <= c2 < c && 0 <= j2 < case_triangles(
                    mc_case_spec(flags_to_index_spec(cubes@[c2].1@))@,
                ).len() ==> #[trigger] triangle_matches_case(cubes@, vertices@, triangles@, c2, j2),
        decreases cubes@.len() - c,
    {
        let (cell, flags) = cubes[c];
        let case = marching_cubes_triangulation_iter(&flags);
        let ghost case_seq = case_triangles(mc_case_spec(flags_to_index_spec(flags@))@);
        let mut t: usize = 0;
        while t < case.len()
            invariant
                grid.well_formed(),
                grid.cell_in_bounds(cell),
                c < cubes@.len(),
                cell == cubes@[c as int].0,
                flags == cubes@[c as int].1,
                case@ == case_seq,
                case_seq == case_triangles(mc_case_spec(flags_to_index_spec(flags@))@),
                t <= case@.len(),
                dedup_invariant(*grid, map@, vertices@),
                forall|u: int, k: int|
                    0 <= u < triangles@.len() && 0 <= k < 3 ==> #[trigger] triangles@[u][k]
                        < vertices@.len(),
                triangles@.len() == total_case_triangles(cubes@, c as int) + t,
                forall|c2: int, j2: int|
                    0 <= c2 < c && 0 <= j2 < case_triangles(
                        mc_case_spec(flags_to_index_spec(cubes@[c2].1@))@,
                    ).len() ==> #[trigger] triangle_matches_case(
                        cubes@,
                        vertices@,
                        triangles@,
                        c2,
                        j2,
                    ),
                forall|j2: int|
                    0 <= j2 < t ==> #[trigger] triangle_matches_case(
                        cubes@,
                        vertices@,
                        triangles@,
                        c as int,
                        j2,
                    ),
            decreases case@.len() - t,
        {
            let triangle = case[t];
            if triangle[0] < 0 || triangle[0] >= 12 || triangle[1] < 0 || triangle[1] >= 12
                || triangle[2] < 0 || triangle[2] >= 12 {
                proof {
                    assert(!case_entries_in_range(cubes@[c as int].1));
                }
                return Err(TriangulationError::InvalidCaseEntry);
            }
            let ghost vertices_before = vertices@;
            let ghost triangles_before = triangles@;
            let a = vertex_for_edge(grid, &cell, triangle[0] as usize, &mut map, &mut vertices);
            let ghost vertices_after_a = vertices@;
            let b = vertex_for_edge(grid, &cell, triangle[1] as usize, &mut map, &mut vertices);
            let ghost vertices_after_b = vertices@;
            let d = vertex_for_edge(grid, &cell, triangle[2] as usize, &mut map, &mut vertices);
            triangles.push([a, b, d]);
            proof {
                let cs = cubes@;
                assert(triangles@.take(triangles_before.len() as int) =~= triangles_before);
                assert(vertices@.take(vertices_before.len() as int) =~= vertices_before);
                // the three vertex positions survive the later calls
                assert(vertices_after_a[a as int] == vertices_after_b.take(
                    vertices_after_a.len() as int,
                )[a as int]);
                let taken = vertices@.take(vertices_after_b.len() as int);
                assert(vertices_after_b[a as int] == taken[a as int]);
                assert(vertices_after_b[b as int] == taken[b as int]);
                assert(vertices@[a as int] == cell_edge_vertex(cell, triangle[0] as int));
                assert(vertices@[b as int] == cell_edge_vertex(cell, triangle[1] as int));
                assert(vertices@[d as int] == cell_edge_vertex(cell, triangle[2] as int));
                assert forall|u: int, k: int|
                    0 <= u < triangles@.len() && 0 <= k < 3 implies #[trigger] triangles@[u][k]
                    < vertices@.len() by {
                    if u < triangles_before.len() {
                        assert(triangles@[u] == triangles_before[u]);
                        assert(triangles_before[u][k] < vertices_before.len());
                        assert(vertices_before.len() <= vertices@.len());
                    } else {
                        assert(triangles@[u] == [a, b, d]);
                    }
                }
                assert forall|c2: int, j2: int|
                    0 <= c2 < c && 0 <= j2 < case_triangles(
                        mc_case_spec(flags_to_index_spec(cs[c2].1@))@,
                    ).len() implies #[trigger] triangle_matches_case(
                    cs,
                    vertices@,
                    triangles@,
                    c2,
                    j2,
                ) by {
                    lemma_triangle_match_preserved(
                        cs,
                        vertices_before,
                        vertices@,
                        triangles_before,
                        triangles@,
                        c2,
                        j2,
                    );
                }
                assert forall|j2: int|
                    0 <= j2 < t + 1 implies #[trigger] triangle_matches_case(
                    cs,
                    vertices@,
                    triangles@,
                    c as int,
                    j2,
                ) by {
                    if j2 < t {
                        lemma_triangle_match_preserved(
                            cs,
                            vertices_before,
                            vertices@,
                            triangles_before,
                            triangles@,
                            c as int,
                            j2,
                        );
                    } else {
                        assert(total_case_triangles(cs, c as int) + j2
                            == triangles_before.len());
                        assert(triangles@[triangles_before.len() as int] == [a, b, d]);
                        assert(case_seq[j2] == triangle);
                        assert forall|k: int|
                            0 <= k < 3 implies #[trigger] triangles@[triangles_before.len() as int][k]
                            < vertices@.len() && vertices@[triangles@[triangles_before.len() as int][k] as int]
                            == cell_edge_vertex(cs[c as int].0, case_seq[j2][k] as int) by {
                            if k == 0 {
                                assert(triangles@[triangles_before.len() as int][0] == a);
                            } else if k == 1 {
                                assert(triangles@[triangles_before.len() as int][1] == b);
                            } else {
                                assert(triangles@[triangles_before.len() as int][2] == d);
                            }
                        }
                    }
                }
            }
            t += 1;
        }
        proof {
            assert(total_case_triangles(cubes@, c as int + 1) == total_case_triangles(
                cubes@,
                c as int,
            ) + case_seq.len());
            assert forall|c2: int, j2: int|
                0 <= c2 < c + 1 && 0 <= j2 < case_triangles(
                    mc_case_spec(flags_to_index_spec(cubes@[c2].1@))@,
                ).len() implies #[trigger] triangle_matches_case(
                cubes@,
                vertices@,
                triangles@,
                c2,
                j2,
            ) by {
                if c2 == c as int {
                    assert(triangle_matches_case(cubes@, vertices@, triangles@, c as int, j2));
                }
            }
        }
        c += 1;
    }
    (Ok((vertices, triangles)))
}


/// Offset of corner `ci` of a cell, in the numbering of the case table.
pub open spec fn corner_offset_spec(ci: int) -> [i64; 3] {
    if ci == 0 {
        [0, 0, 0]
    } else if ci == 1 {
        [1, 0, 0]
    } else if ci == 2 {
        [1, 1, 0]
    } else if ci == 3 {
        [0, 1, 0]
    } else if ci == 4 {
        [0, 0, 1]
    } else if ci == 5 {
        [1, 0, 1]
    } else if ci == 6 {
        [1, 1, 1]
    } else {
        [0, 1, 1]
    }
}

/// Offset of corner `ci` of a cell, in the numbering of the case table.
pub fn corner_offset(ci: usize) -> (offset: [i64; 3])
    requires
        ci < 8,
    ensures
        offset == corner_offset_spec(ci as int),
        0 <= offset[0] <= 1 && 0 <= offset[1] <= 1 && 0 <= offset[2] <= 1,
{
    let offset = if ci == 0 {
        [0i64, 0, 0]
    } else if ci == 1 {
        [1, 0, 0]
    } else if ci == 2 {
        [1, 1, 0]
    } else if ci == 3 {
        [0, 1, 0]
    } else if ci == 4 {
        [0, 0, 1]
    } else if ci == 5 {
        [1, 0, 1]
    } else if ci == 6 {
        [1, 1, 1]
    } else {
        [0, 1, 1]
    };
    proof {
        assert(offset == corner_offset_spec(ci as int));
    }
    offset
}

/// The cell that has the given grid point as its corner `ci`.
pub open spec fn incident_cell(point: [i64; 3], ci: int) -> [i64; 3] {
    let offset = corner_offset_spec(ci);
    [(point[0] - offset[0]) as i64, (point[1] - offset[1]) as i64, (point[2] - offset[2]) as i64]
}

/// Some listed grid point is a corner of the in-bounds cell with the given
/// flat index.
pub open spec fn cell_touched_by<R: Copy>(
    grid: UniformGrid<R>,
    flat_cell: i64,
    points: Seq<[i64; 3]>,
) -> bool {
    exists|pi: int, ci: int|
        0 <= pi < points.len() && 0 <= ci < 8 && grid.cell_in_bounds(
            #[trigger] incident_cell(points[pi], ci),
        ) && grid.flat_cell_index_spec(incident_cell(points[pi], ci)) == flat_cell
}

/// As [`cell_touched_by`], witnessed before the iteration position: by a
/// point before `n`, or by point `n` itself with a corner before `m`.
pub open spec fn cell_touched_before<R: Copy>(
    grid: UniformGrid<R>,
    flat_cell: i64,
    points: Seq<[i64; 3]>,
    n: int,
    m: int,
) -> bool {
    exists|pi: int, ci: int|
        0 <= pi < points.len() && 0 <= ci < 8 && (pi < n || (pi == n && ci < m))
            && grid.cell_in_bounds(#[trigger] incident_cell(points[pi], ci))
            && grid.flat_cell_index_spec(incident_cell(points[pi], ci)) == flat_cell
}

/// The flat indices are strictly ascending.
pub open spec fn strictly_ascending(cells: Seq<i64>) -> bool {
    forall|p: int, q: int| 0 <= p < q < cells.len() ==> #[trigger] cells[p] < #[trigger] cells[q]
}

/// The flat index stands in the list.
pub open spec fn contains_flat(cells: Seq<i64>, flat: i64) -> bool {
    exists|k: int| 0 <= k < cells.len() && #[trigger] cells[k] == flat
}

/// Inserts a flat index into an ascending list, keeping it ascending and
/// without duplicates.
fn insert_sorted(cells: &mut Vec<i64>, flat: i64)
    requires
        strictly_ascending(old(cells)@),
    ensures
        strictly_ascending(final(cells)@),
        forall|x: i64|
            #[trigger] contains_flat(final(cells)@, x) <==> contains_flat(old(cells)@, x) || x
                == flat,
{
    let mut pos: usize = 0;
    while pos < cells.len() && cells[pos] < flat
        invariant
            pos <= cells@.len(),
            cells@ == old(cells)@,
            forall|k: int| 0 <= k < pos ==> #[trigger] cells@[k] < flat,
        decreases cells@.len() - pos,
    {
        pos += 1;
    }
    if pos < cells.len() && cells[pos] == flat {
        proof {
            assert(contains_flat(cells@, flat));
            assert forall|x: i64|
                #[trigger] contains_flat(cells@, x) <==> contains_flat(old(cells)@, x) || x
                    == flat by {}
        }
        return ;
    }
    let ghost before = cells@;
    cells.insert(pos, flat);
    proof {
        assert(cells@ == before.insert(pos as int, flat));
        assert(cells@.len() == before.len() + 1);
        assert(forall|k: int| 0 <= k < pos ==> #[trigger] cells@[k] == before[k]);
        assert(cells@[pos as int] == flat);
        assert(forall|k: int|
            pos < k < cells@.len() ==> #[trigger] cells@[k] == before[k - 1]);
        assert(pos == before.len() || before[pos as int] > flat);
        assert forall|p: int, q: int|
            0 <= p < q < cells@.len() implies #[trigger] cells@[p] < #[trigger] cells@[q] by {
            if q < pos {
            } else if p < pos && q == pos {
                assert(cells@[p] == before[p] && before[p] < flat);
            } else if p < pos && q > pos {
                assert(cells@[q] == before[q - 1]);
                if q - 1 == p {
                    assert(before[p] < flat);
                    assert(flat < before[p] || before[p] < flat);
                } else {
                    assert(before[p] < before[q - 1]);
                }
            } else if p == pos {
                assert(cells@[q] == before[q - 1]);
                assert(q - 1 >= pos);
                if q - 1 == pos {
                    assert(before[pos as int] > flat);
                } else {
                    assert(before[pos as int] < before[q - 1]);
                    assert(before[pos as int] > flat);
                }
            } else {
                assert(cells@[p] == before[p - 1] && cells@[q] == before[q - 1]);
            }
        }
        assert forall|x: i64|
            #[trigger] contains_flat(cells@, x) <==> contains_flat(before, x) || x == flat by {
            if contains_flat(cells@, x) {
                let k = choose|k: int| 0 <= k < cells@.len() && cells@[k] == x;
                if k < pos {
                    assert(before[k] == x);
                    assert(contains_flat(before, x));
                } else if k == pos {
                } else {
                    assert(before[k - 1] == x);
                    assert(contains_flat(before, x));
                }
            }
            if contains_flat(before, x) {
                let k = choose|k: int| 0 <= k < before.len() && before[k] == x;
                if k < pos {
                    assert(cells@[k] == x);
                } else {
                    assert(cells@[k + 1] == x);
                }
                assert(contains_flat(cells@, x));
            }
            if x == flat {
                assert(cells@[pos as int] == x);
                assert(contains_flat(cells@, x));
            }
        }
    }
}

/// Collects the cells a density map touches: every in-bounds cell one of
/// whose corners is a listed grid point, by flat cell index in strictly
/// ascending order (so without duplicates), for reproducible triangulation
/// output.
pub fn touched_cells<R: Copy>(grid: &UniformGrid<R>, points: &Vec<[i64; 3]>) -> (cells: Vec<i64>)
    requires
        grid.well_formed(),
        forall|i: int| 0 <= i < points@.len() ==> grid.point_in_bounds(#[trigger] points@[i]),
    ensures
        strictly_ascending(cells@),
        forall|k: int|
            0 <= k < cells@.len() ==> cell_touched_by(*grid, #[trigger] cells@[k], points@),
        forall|flat: i64|
            #[trigger] cell_touched_by(*grid, flat, points@) ==> contains_flat(cells@, flat),
{
    let mut cells: Vec<i64> = Vec::new();
    let mut pi: usize = 0;
    while pi < points.len()
        invariant
            grid.well_formed(),
            forall|i: int| 0 <= i < points@.len() ==> grid.point_in_bounds(#[trigger] points@[i]),
            pi <= points@.len(),
            strictly_ascending(cells@),
            forall|k: int|
                0 <= k < cells@.len() ==> cell_touched_by(*grid, #[trigger] cells@[k], points@),
            forall|flat: i64|
                #[trigger] cell_touched_before(*grid, flat, points@, pi as int, 0) ==> contains_flat(
                    cells@,
                    flat,
                ),
        decreases points@.len() - pi,
    {
        let point = points[pi];
        let mut ci: usize = 0;
        while ci < 8
            invariant
                grid.well_formed(),
                forall|i: int|
                    0 <= i < points@.len() ==> grid.point_in_bounds(#[trigger] points@[i]),
                pi < points@.len(),
                point == points@[pi as int],
                ci <= 8,
                strictly_ascending(cells@),
                forall|k: int|
                    0 <= k < cells@.len() ==> cell_touched_by(*grid, #[trigger] cells@[k], points@),
                forall|flat: i64|
                    #[trigger] cell_touched_before(*grid, flat, points@, pi as int, ci as int)
                        ==> contains_flat(cells@, flat),
            decreases 8 - ci,
        {
            let offset = corner_offset(ci);
            let candidate = [point[0] - offset[0], point[1] - offset[1], point[2] - offset[2]];
            proof {
                assert(candidate =~= incident_cell(points@[pi as int], ci as int));
            }
            if candidate[0] >= 0 && candidate[1] >= 0 && candidate[2] >= 0 && candidate[0]
                < grid.n_cells_per_dim[0] && candidate[1] < grid.n_cells_per_dim[1] && candidate[2]
                < grid.n_cells_per_dim[2] {
                let flat = grid.flatten_cell_index(&candidate);
                let ghost cells_before = cells@;
                insert_sorted(&mut cells, flat);
                proof {
                    assert(cell_touched_by(*grid, flat, points@));
                    assert forall|k: int|
                        0 <= k < cells@.len() implies cell_touched_by(
                        *grid,
                        #[trigger] cells@[k],
                        points@,
                    ) by {
                        let x = cells@[k];
                        assert(contains_flat(cells@, x));
                        if x != flat {
                            assert(contains_flat(cells_before, x));
                            let k2 = choose|k2: int|
                                0 <= k2 < cells_before.len() && cells_before[k2] == x;
                            assert(cell_touched_by(*grid, cells_before[k2], points@));
                        }
                    }
                }
            }
            proof {
                assert forall|f: i64|
                    #[trigger] cell_touched_before(*grid, f, points@, pi as int, ci as int + 1)
                        implies contains_flat(cells@, f) by {
                    let (pw, cw) = choose|pw: int, cw: int|
                        0 <= pw < points@.len() && 0 <= cw < 8 && (pw < pi as int || (pw
                            == pi as int && cw < ci as int + 1)) && grid.cell_in_bounds(
                            #[trigger] incident_cell(points@[pw], cw),
                        ) && grid.flat_cell_index_spec(incident_cell(points@[pw], cw)) == f;
                    if pw < pi as int || cw < ci as int {
                        assert(cell_touched_before(*grid, f, points@, pi as int, ci as int));
                    } else {
                        assert(pw == pi as int && cw == ci as int);
                        assert(grid.cell_in_bounds(incident_cell(points@[pi as int], ci as int)));
                    }
                }
            }
            ci += 1;
        }
        proof {
            assert forall|f: i64|
                #[trigger] cell_touched_before(*grid, f, points@, pi as int + 1, 0) implies contains_flat(
                cells@,
                f,
            ) by {
                assert(cell_touched_before(*grid, f, points@, pi as int, 8));
            }
        }
        pi += 1;
    }
    proof {
        assert forall|f: i64| #[trigger] cell_touched_by(*grid, f, points@) implies contains_flat(
            cells@,
            f,
        ) by {
            let (pw, cw) = choose|pw: int, cw: int|
                0 <= pw < points@.len() && 0 <= cw < 8 && grid.cell_in_bounds(
                    #[trigger] incident_cell(points@[pw], cw),
                ) && grid.flat_cell_index_spec(incident_cell(points@[pw], cw)) == f;
            assert(cell_touched_before(*grid, f, points@, points@.len() as int, 0));
        }
    }
    cells
}

} // verus!
