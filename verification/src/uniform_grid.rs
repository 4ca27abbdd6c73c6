//! The virtual background grid used for marching cubes.
//!
//! The grid discretizes an axis-aligned bounding box into cubic cells of a
//! fixed edge length. Grid points are the cell corners; a grid of
//! `(nx, ny, nz)` cells has `(nx+1, ny+1, nz+1)` points. Points and cells
//! carry both a 3D integer index and a flat index; the two are mapped into
//! each other bijectively by a lexicographic flattening, so that adjacent
//! cells see identical flat indices for every shared point. This shared
//! identity is the basis of the edge-vertex deduplication of the
//! triangulation stage.
//!
//! Cube edges are identified globally by the grid point at their lower end
//! together with their axis; the flat form of that identifier is unique per
//! geometric edge, whichever cell the edge is seen from.

use vstd::prelude::*;
use vstd::arithmetic::div_mod::lemma_fundamental_div_mod_converse;
use crate::aabb::AxisAlignedBoundingBox3d;

verus! {

/// Error occurring during the construction of the virtual background grid.
#[derive(Clone, Copy, Debug, PartialEq, Eq, Structural)]
pub enum GridConstructionError {
    /// The domain's extent is not positive along every axis: it spans less
    /// than one whole cell somewhere.
    InvalidDomain,
    /// The grid's point count overflows the index kind.
    IndexOverflow,
}

/// Largest number of grid points a grid may have. Flat point indices then
/// stay below `i64::MAX / 4`, which leaves room for the flat edge
/// identifiers (three edges per point, one per axis).
pub const MAX_GRID_POINTS: i64 = 0x1fff_ffff_ffff_ffff;

/// The index triple `p` lies within an index space of `dims` entries per
/// axis.
pub open spec fn index_in_bounds(dims: [i64; 3], p: [i64; 3]) -> bool {
    &&& 0 <= p[0] < dims[0]
    &&& 0 <= p[1] < dims[1]
    &&& 0 <= p[2] < dims[2]
}

/// Lexicographic flattening of the index triple `p`: the last axis varies
/// fastest.
pub open spec fn flatten_spec(dims: [i64; 3], p: [i64; 3]) -> int {
    (p[0] * dims[1] + p[1]) * dims[2] + p[2]
}

/// Number of entries of an index space of `dims` entries per axis.
pub open spec fn index_space_size(dims: [i64; 3]) -> int {
    dims[0] * dims[1] * dims[2]
}

/// A flat index lies in the index space and flattening is bounded by the
/// space's size.
proof fn lemma_flatten_in_range(dims: [i64; 3], p: [i64; 3])
    requires
        dims[0] >= 1 && dims[1] >= 1 && dims[2] >= 1,
        index_in_bounds(dims, p),
    ensures
        0 <= flatten_spec(dims, p) < index_space_size(dims),
        p[0] * dims[1] + p[1] < dims[0] * dims[1],
        0 <= p[0] * dims[1] + p[1],
        0 <= (p[0] * dims[1] + p[1]) * dims[2],
{
    assert(0 <= p[0] * dims[1] + p[1] && p[0] * dims[1] + p[1] < dims[0] * dims[1])
        by (nonlinear_arith)
        requires
            0 <= p[0] < dims[0],
            0 <= p[1] < dims[1],
    ;
    assert(0 <= (p[0] * dims[1] + p[1]) * dims[2] && 0 <= (p[0] * dims[1] + p[1]) * dims[2] + p[2]
        && (p[0] * dims[1] + p[1]) * dims[2] + p[2] < (dims[0] * dims[1]) * dims[2])
        by (nonlinear_arith)
        requires
            0 <= p[0] * dims[1] + p[1],
            p[0] * dims[1] + p[1] < dims[0] * dims[1],
            0 <= p[2] < dims[2],
    ;
    assert((dims[0] * dims[1]) * dims[2] == dims[0] * dims[1] * dims[2]) by (nonlinear_arith);
}

/// The flattening is injective: two index triples of the same flat index
/// are equal.
proof fn lemma_flatten_injective(dims: [i64; 3], p: [i64; 3], q: [i64; 3])
    requires
        dims[0] >= 1 && dims[1] >= 1 && dims[2] >= 1,
        index_in_bounds(dims, p),
        index_in_bounds(dims, q),
        flatten_spec(dims, p) == flatten_spec(dims, q),
    ensures
        p == q,
{
    let flat = flatten_spec(dims, p);
    lemma_flatten_in_range(dims, p);
    lemma_flatten_in_range(dims, q);
    lemma_fundamental_div_mod_converse(flat, dims[2] as int, p[0] * dims[1] + p[1], p[2] as int);
    lemma_fundamental_div_mod_converse(flat, dims[2] as int, q[0] * dims[1] + q[1], q[2] as int);
    assert(p[2] == q[2]);
    let rest = flat / (dims[2] as int);
    lemma_fundamental_div_mod_converse(rest, dims[1] as int, p[0] as int, p[1] as int);
    lemma_fundamental_div_mod_converse(rest, dims[1] as int, q[0] as int, q[1] as int);
    assert(p[0] == q[0] && p[1] == q[1]);
    assert(p =~= q);
}

/// Uniform background grid of cubic cells over an axis-aligned bounding
/// box, with scalars of kind `R`.
///
/// The corner of smallest coordinates of the box is the grid origin; the
/// world position of grid point `(i, j, k)` is the origin plus
/// `(i, j, k) * cell_size`, computed by the owner of the scalar kind.
#[derive(Clone, Copy, Debug)]
pub struct UniformGrid<R> {
    /// Domain of the grid.
    pub aabb: AxisAlignedBoundingBox3d<R>,
    /// Edge length of the cubic cells.
    pub cell_size: R,
    /// Number of cells along each axis.
    pub n_cells_per_dim: [i64; 3],
    /// Number of grid points along each axis: one more than the cells.
    pub n_points_per_dim: [i64; 3],
}

impl<R: Copy> UniformGrid<R> {
    /// The grid's cell and point counts are consistent, positive, and small
    /// enough that every flat point and edge index fits the index kind.
    pub open spec fn well_formed(self) -> bool {
        &&& self.n_cells_per_dim[0] >= 1
        &&& self.n_cells_per_dim[1] >= 1
        &&& self.n_cells_per_dim[2] >= 1
        &&& self.n_points_per_dim[0] == self.n_cells_per_dim[0] + 1
        &&& self.n_points_per_dim[1] == self.n_cells_per_dim[1] + 1
        &&& self.n_points_per_dim[2] == self.n_cells_per_dim[2] + 1
        &&& index_space_size(self.n_points_per_dim) <= MAX_GRID_POINTS
    }

    /// Constructs the grid over the given box from its per-axis cell
    /// counts, which the caller computes so that the box is covered by
    /// whole cells of edge length `cell_size`.
    ///
    /// Fails with [`GridConstructionError::InvalidDomain`] where the box
    /// spans less than one cell along some axis, and with
    /// [`GridConstructionError::IndexOverflow`] where the flat point
    /// indices would overflow the index kind.
    pub fn new(
        aabb: &AxisAlignedBoundingBox3d<R>,
        cell_size: R,
        n_cells_per_dim: [i64; 3],
    ) -> (result: Result<UniformGrid<R>, GridConstructionError>)
        ensures
            match result {
                Ok(grid) => grid.well_formed() && grid.aabb == *aabb && grid.cell_size == cell_size
                    && grid.n_cells_per_dim == n_cells_per_dim,
                Err(GridConstructionError::InvalidDomain) => !(n_cells_per_dim[0] >= 1
                    && n_cells_per_dim[1] >= 1 && n_cells_per_dim[2] >= 1),
                Err(GridConstructionError::IndexOverflow) => n_cells_per_dim[0] >= 1
                    && n_cells_per_dim[1] >= 1 && n_cells_per_dim[2] >= 1 && (n_cells_per_dim[0]
                    + 1) * (n_cells_per_dim[1] + 1) * (n_cells_per_dim[2] + 1) > MAX_GRID_POINTS,
            },
    {
        if n_cells_per_dim[0] < 1 || n_cells_per_dim[1] < 1 || n_cells_per_dim[2] < 1 {
            return Err(GridConstructionError::InvalidDomain);
        }
        if n_cells_per_dim[0] > i64::MAX - 1 || n_cells_per_dim[1] > i64::MAX - 1
            || n_cells_per_dim[2] > i64::MAX - 1 {
            proof {
                assert((n_cells_per_dim[0] + 1) * (n_cells_per_dim[1] + 1) * (n_cells_per_dim[2]
                    + 1) > MAX_GRID_POINTS) by (nonlinear_arith)
                    requires
                        n_cells_per_dim[0] >= 1 && n_cells_per_dim[1] >= 1 && n_cells_per_dim[2]
                            >= 1,
                        n_cells_per_dim[0] + 1 > i64::MAX || n_cells_per_dim[1] + 1 > i64::MAX
                            || n_cells_per_dim[2] + 1 > i64::MAX,
                ;
            }
            return Err(GridConstructionError::IndexOverflow);
        }
        let n_points_per_dim: [i64; 3] = [
            n_cells_per_dim[0] + 1,
            n_cells_per_dim[1] + 1,
            n_cells_per_dim[2] + 1,
        ];
        proof {
            assert((n_points_per_dim[0] as i128) * (n_points_per_dim[1] as i128) == (
            n_points_per_dim[0] as int) * (n_points_per_dim[1] as int) && 1 <= (n_points_per_dim[0]
                as int) * (n_points_per_dim[1] as int) && (n_points_per_dim[0] as int) * (
            n_points_per_dim[1] as int) < i128::MAX) by (nonlinear_arith)
                requires
                    1 <= n_points_per_dim[0] <= i64::MAX,
                    1 <= n_points_per_dim[1] <= i64::MAX,
            ;
        }
        let pair: i128 = (n_points_per_dim[0] as i128) * (n_points_per_dim[1] as i128);
        if pair > MAX_GRID_POINTS as i128 {
            proof {
                assert((n_cells_per_dim[0] + 1) * (n_cells_per_dim[1] + 1) * (n_cells_per_dim[2]
                    + 1) > MAX_GRID_POINTS) by (nonlinear_arith)
                    requires
                        n_points_per_dim[0] == n_cells_per_dim[0] + 1,
                        n_points_per_dim[1] == n_cells_per_dim[1] + 1,
                        n_points_per_dim[2] == n_cells_per_dim[2] + 1,
                        n_points_per_dim[0] as int * n_points_per_dim[1] as int > MAX_GRID_POINTS,
                        n_points_per_dim[2] >= 1,
                ;
            }
            return Err(GridConstructionError::IndexOverflow);
        }
        proof {
            assert(pair * (n_points_per_dim[2] as i128) == pair * (n_points_per_dim[2] as int)
                && 1 <= pair * (n_points_per_dim[2] as int) && pair * (n_points_per_dim[2] as int)
                < i128::MAX && pair * (n_points_per_dim[2] as int) == (n_cells_per_dim[0] + 1) * (
            n_cells_per_dim[1] + 1) * (n_cells_per_dim[2] + 1)) by (nonlinear_arith)
                requires
                    1 <= pair <= MAX_GRID_POINTS,
                    1 <= n_points_per_dim[2] <= i64::MAX,
                    pair == (n_points_per_dim[0] as int) * (n_points_per_dim[1] as int),
                    n_points_per_dim[0] == n_cells_per_dim[0] + 1,
                    n_points_per_dim[1] == n_cells_per_dim[1] + 1,
                    n_points_per_dim[2] == n_cells_per_dim[2] + 1,
            ;
        }
        let total: i128 = pair * (n_points_per_dim[2] as i128);
        if total > MAX_GRID_POINTS as i128 {
            return Err(GridConstructionError::IndexOverflow);
        }
        Ok(UniformGrid { aabb: *aabb, cell_size, n_cells_per_dim, n_points_per_dim })
    }

    /// The point index triple lies within the grid.
    pub open spec fn point_in_bounds(self, p: [i64; 3]) -> bool {
        index_in_bounds(self.n_points_per_dim, p)
    }

    /// The cell index triple lies within the grid.
    pub open spec fn cell_in_bounds(self, c: [i64; 3]) -> bool {
        index_in_bounds(self.n_cells_per_dim, c)
    }

    /// Flat index of the grid point with the given index triple.
    pub open spec fn flat_point_index_spec(self, p: [i64; 3]) -> int {
        flatten_spec(self.n_points_per_dim, p)
    }

    /// Flat index of the cell with the given index triple.
    pub open spec fn flat_cell_index_spec(self, c: [i64; 3]) -> int {
        flatten_spec(self.n_cells_per_dim, c)
    }

    /// Number of grid points.
    pub open spec fn points_total_spec(self) -> int {
        index_space_size(self.n_points_per_dim)
    }

    /// Maps the index triple of a grid point to its flat point index.
    pub fn flatten_point_index(&self, p: &[i64; 3]) -> (flat: i64)
        requires
            self.well_formed(),
            self.point_in_bounds(*p),
        ensures
            flat == self.flat_point_index_spec(*p),
            0 <= flat < self.points_total_spec(),
    {
        proof {
            lemma_flatten_in_range(self.n_points_per_dim, *p);
            lemma_space_size_parts(self.n_points_per_dim);
        }
        (p[0] * self.n_points_per_dim[1] + p[1]) * self.n_points_per_dim[2] + p[2]
    }

    /// Maps the index triple of a cell to its flat cell index.
    pub fn flatten_cell_index(&self, c: &[i64; 3]) -> (flat: i64)
        requires
            self.well_formed(),
            self.cell_in_bounds(*c),
        ensures
            flat == self.flat_cell_index_spec(*c),
            0 <= flat < index_space_size(self.n_cells_per_dim),
    {
        proof {
            lemma_flatten_in_range(self.n_cells_per_dim, *c);
            lemma_cells_no_more_than_points(*self);
            lemma_space_size_parts(self.n_cells_per_dim);
        }
        (c[0] * self.n_cells_per_dim[1] + c[1]) * self.n_cells_per_dim[2] + c[2]
    }

    /// Maps a flat point index back to the index triple of its grid point;
    /// `None` exactly for the flat values that no grid point has.
    pub fn try_unflatten_point_index(&self, flat: i64) -> (result: Option<[i64; 3]>)
        requires
            self.well_formed(),
        ensures
            match result {
                Some(p) => self.point_in_bounds(p) && self.flat_point_index_spec(p) == flat,
                None => !(0 <= flat < self.points_total_spec()),
            },
    {
        let dims = self.n_points_per_dim;
        let total = self.points_total();
        if flat < 0 || flat >= total {
            return None;
        }
        let k = flat % dims[2];
        let rest = flat / dims[2];
        let j = rest % dims[1];
        let i = rest / dims[1];
        proof {
            lemma_unflatten_correct(dims, flat as int);
        }
        Some([i, j, k])
    }

    /// Maps a flat cell index back to the index triple of its cell; `None`
    /// exactly for the flat values that no cell has.
    pub fn try_unflatten_cell_index(&self, flat: i64) -> (result: Option<[i64; 3]>)
        requires
            self.well_formed(),
        ensures
            match result {
                Some(c) => self.cell_in_bounds(c) && self.flat_cell_index_spec(c) == flat,
                None => !(0 <= flat < index_space_size(self.n_cells_per_dim)),
            },
    {
        let dims = self.n_cells_per_dim;
        proof {
            lemma_cells_no_more_than_points(*self);
            lemma_space_size_parts(dims);
        }
        let total = dims[0] * dims[1] * dims[2];
        if flat < 0 || flat >= total {
            return None;
        }
        let k = flat % dims[2];
        let rest = flat / dims[2];
        let j = rest % dims[1];
        let i = rest / dims[1];
        proof {
            lemma_unflatten_correct(dims, flat as int);
        }
        Some([i, j, k])
    }

    /// The flat index of an in-bounds grid point lies within the point
    /// count.
    pub proof fn lemma_flat_point_index_in_range(self, p: [i64; 3])
        requires
            self.well_formed(),
            self.point_in_bounds(p),
        ensures
            0 <= self.flat_point_index_spec(p) < self.points_total_spec(),
    {
        lemma_flatten_in_range(self.n_points_per_dim, p);
    }

    /// Number of grid points, as a flat count.
    pub fn points_total(&self) -> (total: i64)
        requires
            self.well_formed(),
        ensures
            total == self.points_total_spec(),
    {
        let dims = self.n_points_per_dim;
        proof {
            lemma_space_size_parts(dims);
        }
        dims[0] * dims[1] * dims[2]
    }

    /// The index triples of two grid points of one flat index are equal;
    /// together with [`UniformGrid::try_unflatten_point_index`] the point
    /// index maps are inverse bijections, and so adjacent cells see one
    /// flat index for a shared point.
    pub proof fn lemma_point_flattening_injective(self, p: [i64; 3], q: [i64; 3])
        requires
            self.well_formed(),
            self.point_in_bounds(p),
            self.point_in_bounds(q),
            self.flat_point_index_spec(p) == self.flat_point_index_spec(q),
        ensures
            p == q,
    {
        lemma_flatten_injective(self.n_points_per_dim, p, q);
    }

    /// The index triples of two cells of one flat index are equal.
    pub proof fn lemma_cell_flattening_injective(self, p: [i64; 3], q: [i64; 3])
        requires
            self.well_formed(),
            self.cell_in_bounds(p),
            self.cell_in_bounds(q),
            self.flat_cell_index_spec(p) == self.flat_cell_index_spec(q),
        ensures
            p == q,
    {
        lemma_flatten_injective(self.n_cells_per_dim, p, q);
    }
}

/// The cell index space is no larger than the point index space.
proof fn lemma_cells_no_more_than_points<R: Copy>(grid: UniformGrid<R>)
    requires
        grid.well_formed(),
    ensures
        index_space_size(grid.n_cells_per_dim) <= index_space_size(grid.n_points_per_dim),
{
    let c = grid.n_cells_per_dim;
    let p = grid.n_points_per_dim;
    assert(c[0] * c[1] * c[2] <= p[0] * p[1] * p[2]) by (nonlinear_arith)
        requires
            1 <= c[0] < p[0],
            1 <= c[1] < p[1],
            1 <= c[2] < p[2],
    ;
}

/// The product of the three axis sizes can be computed stepwise without
/// leaving the index kind.
proof fn lemma_space_size_parts(dims: [i64; 3])
    requires
        dims[0] >= 1 && dims[1] >= 1 && dims[2] >= 1,
        index_space_size(dims) <= MAX_GRID_POINTS,
    ensures
        dims[0] * dims[1] <= MAX_GRID_POINTS,
        dims[0] * dims[1] >= 1,
        (dims[0] * dims[1]) * dims[2] == index_space_size(dims),
{
    assert(dims[0] * dims[1] >= 1 && dims[0] * dims[1] <= dims[0] * dims[1] * dims[2] && (dims[0]
        * dims[1]) * dims[2] == dims[0] * dims[1] * dims[2]) by (nonlinear_arith)
        requires
            dims[0] >= 1 && dims[1] >= 1 && dims[2] >= 1,
    ;
}

/// Unflattening by division and remainder recovers the index triple of any
/// flat index of the space.
proof fn lemma_unflatten_correct(dims: [i64; 3], flat: int)
    requires
        dims[0] >= 1 && dims[1] >= 1 && dims[2] >= 1,
        0 <= flat < index_space_size(dims),
    ensures
        ({
            let k = flat % (dims[2] as int);
            let rest = flat / (dims[2] as int);
            let j = rest % (dims[1] as int);
            let i = rest / (dims[1] as int);
            &&& 0 <= k < dims[2]
            &&& 0 <= j < dims[1]
            &&& 0 <= i < dims[0]
            &&& 0 <= rest < dims[0] * dims[1]
            &&& (i * dims[1] + j) * dims[2] + k == flat
        }),
{
    let d2 = dims[2] as int;
    let d1 = dims[1] as int;
    let k = flat % d2;
    let rest = flat / d2;
    let j = rest % d1;
    let i = rest / d1;
    assert(0 <= k < d2 && flat == rest * d2 + k && 0 <= rest) by (nonlinear_arith)
        requires
            d2 >= 1,
            0 <= flat,
            k == flat % d2,
            rest == flat / d2,
    ;
    assert(rest < dims[0] * dims[1]) by (nonlinear_arith)
        requires
            d2 >= 1,
            flat < dims[0] * dims[1] * dims[2],
            d2 == dims[2],
            flat == rest * d2 + k,
            0 <= k,
    ;
    assert(0 <= j < d1 && rest == i * d1 + j && 0 <= i) by (nonlinear_arith)
        requires
            d1 >= 1,
            0 <= rest,
            j == rest % d1,
            i == rest / d1,
    ;
    assert(i < dims[0]) by (nonlinear_arith)
        requires
            d1 >= 1,
            rest < dims[0] * dims[1],
            d1 == dims[1],
            rest == i * d1 + j,
            0 <= j,
    ;
}

} // verus!
