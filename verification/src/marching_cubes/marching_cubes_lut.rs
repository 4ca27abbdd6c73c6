//! The classic marching cubes case table.
//!
//! A cube has eight corners; each corner is either inside the iso-surface
//! (its density lies above the threshold) or outside. The eight booleans
//! form a case index between 0 and 255, where corner `k` contributes the
//! bit of weight `2^k`. For each case the table lists up to five triangles
//! as triplets of cube-edge indices, padded with `-1` entries up to a fixed
//! width of 16.
//!
//! Corner and edge numbering on the cube, with corner 0 at the grid point
//! of lowest coordinates:
//!
//! ```text
//!         7 ________ 6           _____6__
//!         /|       /|         7/|       /|
//!       /  |     /  |        /  |     /5 |
//!   4 /_______ /    |      /__4____ /    10
//!    |     |  |5    |     |    11  |     |
//!    |    3|__|_____|2    |     |__|__2__|
//!    |    /   |    /      8   3/   9    /
//!    |  /     |  /        |  /     |  /1
//!    |/_______|/          |/___0___|/
//!   0          1
//!          Vertices              Edges
//! ```
//!
//! The raw table is written for a left-handed convention, so its triangles
//! wind clockwise when seen from outside the surface. The triangulation
//! returned by [`marching_cubes_triangulation_iter`] therefore reverses
//! every triplet, which makes the emitted normals point out of the fluid.

use vstd::prelude::*;

verus! {

/// Rows 0 to 15 of the marching cubes table.
pub const MC_CASES_0: [[i32; 16]; 16] = [
    [-1, -1, -1, -1, -1, -1, -1, -1, -1, -1, -1, -1, -1, -1, -1, -1],
    [0, 8, 3, -1, -1, -1, -1, -1, -1, -1, -1, -1, -1, -1, -1, -1],
    [0, 1, 9, -1, -1, -1, -1, -1, -1, -1, -1, -1, -1, -1, -1, -1],
    [1, 8, 3, 9, 8, 1, -1, -1, -1, -1, -1, -1, -1, -1, -1, -1],
    [1, 2, 10, -1, -1, -1, -1, -1, -1, -1, -1, -1, -1, -1, -1, -1],
    [0, 8, 3, 1, 2, 10, -1, -1, -1, -1, -1, -1, -1, -1, -1, -1],
    [9, 2, 10, 0, 2, 9, -1, -1, -1, -1, -1, -1, -1, -1, -1, -1],
    [2, 8, 3, 2, 10, 8, 10, 9, 8, -1, -1, -1, -1, -1, -1, -1],
    [3, 11, 2, -1, -1, -1, -1, -1, -1, -1, -1, -1, -1, -1, -1, -1],
    [0, 11, 2, 8, 11, 0, -1, -1, -1, -1, -1, -1, -1, -1, -1, -1],
    [1, 9, 0, 2, 3, 11, -1, -1, -1, -1, -1, -1, -1, -1, -1, -1],
    [1, 11, 2, 1, 9, 11, 9, 8, 11, -1, -1, -1, -1, -1, -1, -1],
    [3, 10, 1, 11, 10, 3, -1, -1, -1, -1, -1, -1, -1, -1, -1, -1],
    [0, 10, 1, 0, 8, 10, 8, 11, 10, -1, -1, -1, -1, -1, -1, -1],
    [3, 9, 0, 3, 11, 9, 11, 10, 9, -1, -1, -1, -1, -1, -1, -1],
    [9, 8, 10, 10, 8, 11, -1, -1, -1, -1, -1, -1, -1, -1, -1, -1],
];

/// Rows 16 to 31 of the marching cubes table.
pub const MC_CASES_1: [[i32; 16]; 16] = [
    [4, 7, 8, -1, -1, -1, -1, -1, -1, -1, -1, -1, -1, -1, -1, -1],
    [4, 3, 0, 7, 3, 4, -1, -1, -1, -1, -1, -1, -1, -1, -1, -1],
    [0, 1, 9, 8, 4, 7, -1, -1, -1, -1, -1, -1, -1, -1, -1, -1],
    [4, 1, 9, 4, 7, 1, 7, 3, 1, -1, -1, -1, -1, -1, -1, -1],
    [1, 2, 10, 8, 4, 7, -1, -1, -1, -1, -1, -1, -1, -1, -1, -1],
    [3, 4, 7, 3, 0, 4, 1, 2, 10, -1, -1, -1, -1, -1, -1, -1],
    [9, 2, 10, 9, 0, 2, 8, 4, 7, -1, -1, -1, -1, -1, -1, -1],
    [2, 10, 9, 2, 9, 7, 2, 7, 3, 7, 9, 4, -1, -1, -1, -1],
    [8, 4, 7, 3, 11, 2, -1, -1, -1, -1, -1, -1, -1, -1, -1, -1],
    [11, 4, 7, 11, 2, 4, 2, 0, 4, -1, -1, -1, -1, -1, -1, -1],
    [9, 0, 1, 8, 4, 7, 2, 3, 11, -1, -1, -1, -1, -1, -1, -1],
    [4, 7, 11, 9, 4, 11, 9, 11, 2, 9, 2, 1, -1, -1, -1, -1],
    [3, 10, 1, 3, 11, 10, 7, 8, 4, -1, -1, -1, -1, -1, -1, -1],
    [1, 11, 10, 1, 4, 11, 1, 0, 4, 7, 11, 4, -1, -1, -1, -1],
    [4, 7, 8, 9, 0, 11, 9, 11, 10, 11, 0, 3, -1, -1, -1, -1],
    [4, 7, 11, 4, 11, 9, 9, 11, 10, -1, -1, -1, -1, -1, -1, -1],
];

/// Rows 32 to 47 of the marching cubes table.
pub const MC_CASES_2: [[i32; 16]; 16] = [
    [9, 5, 4, -1, -1, -1, -1, -1, -1, -1, -1, -1, -1, -1, -1, -1],
    [9, 5, 4, 0, 8, 3, -1, -1, -1, -1, -1, -1, -1, -1, -1, -1],
    [0, 5, 4, 1, 5, 0, -1, -1, -1, -1, -1, -1, -1, -1, -1, -1],
    [8, 5, 4, 8, 3, 5, 3, 1, 5, -1, -1, -1, -1, -1, -1, -1],
    [1, 2, 10, 9, 5, 4, -1, -1, -1, -1, -1, -1, -1, -1, -1, -1],
    [3, 0, 8, 1, 2, 10, 4, 9, 5, -1, -1, -1, -1, -1, -1, -1],
    [5, 2, 10, 5, 4, 2, 4, 0, 2, -1, -1, -1, -1, -1, -1, -1],
    [2, 10, 5, 3, 2, 5, 3, 5, 4, 3, 4, 8, -1, -1, -1, -1],
    [9, 5, 4, 2, 3, 11, -1, -1, -1, -1, -1, -1, -1, -1, -1, -1],
    [0, 11, 2, 0, 8, 11, 4, 9, 5, -1, -1, -1, -1, -1, -1, -1],
    [0, 5, 4, 0, 1, 5, 2, 3, 11, -1, -1, -1, -1, -1, -1, -1],
    [2, 1, 5, 2, 5, 8, 2, 8, 11, 4, 8, 5, -1, -1, -1, -1],
    [10, 3, 11, 10, 1, 3, 9, 5, 4, -1, -1, -1, -1, -1, -1, -1],
    [4, 9, 5, 0, 8, 1, 8, 10, 1, 8, 11, 10, -1, -1, -1, -1],
    [5, 4, 0, 5, 0, 11, 5, 11, 10, 11, 0, 3, -1, -1, -1, -1],
    [5, 4, 8, 5, 8, 10, 10, 8, 11, -1, -1, -1, -1, -1, -1, -1],
];

/// Rows 48 to 63 of the marching cubes table.
pub const MC_CASES_3: [[i32; 16]; 16] = [
    [9, 7, 8, 5, 7, 9, -1, -1, -1, -1, -1, -1, -1, -1, -1, -1],
    [9, 3, 0, 9, 5, 3, 5, 7, 3, -1, -1, -1, -1, -1, -1, -1],
    [0, 7, 8, 0, 1, 7, 1, 5, 7, -1, -1, -1, -1, -1, -1, -1],
    [1, 5, 3, 3, 5, 7, -1, -1, -1, -1, -1, -1, -1, -1, -1, -1],
    [9, 7, 8, 9, 5, 7, 10, 1, 2, -1, -1, -1, -1, -1, -1, -1],
    [10, 1, 2, 9, 5, 0, 5, 3, 0, 5, 7, 3, -1, -1, -1, -1],
    [8, 0, 2, 8, 2, 5, 8, 5, 7, 10, 5, 2, -1, -1, -1, -1],
    [2, 10, 5, 2, 5, 3, 3, 5, 7, -1, -1, -1, -1, -1, -1, -1],
    [7, 9, 5, 7, 8, 9, 3, 11, 2, -1, -1, -1, -1, -1, -1, -1],
    [9, 5, 7, 9, 7, 2, 9, 2, 0, 2, 7, 11, -1, -1, -1, -1],
    [2, 3, 11, 0, 1, 8, 1, 7, 8, 1, 5, 7, -1, -1, -1, -1],
    [11, 2, 1, 11, 1, 7, 7, 1, 5, -1, -1, -1, -1, -1, -1, -1],
    [9, 5, 8, 8, 5, 7, 10, 1, 3, 10, 3, 11, -1, -1, -1, -1],
    [5, 7, 0, 5, 0, 9, 7, 11, 0, 1, 0, 10, 11, 10, 0, -1],
    [11, 10, 0, 11, 0, 3, 10, 5, 0, 8, 0, 7, 5, 7, 0, -1],
    [11, 10, 5, 7, 11, 5, -1, -1, -1, -1, -1, -1, -1, -1, -1, -1],
];

/// Rows 64 to 79 of the marching cubes table.
pub const MC_CASES_4: [[i32; 16]; 16] = [
    [10, 6, 5, -1, -1, -1, -1, -1, -1, -1, -1, -1, -1, -1, -1, -1],
    [0, 8, 3, 5, 10, 6, -1, -1, -1, -1, -1, -1, -1, -1, -1, -1],
    [9, 0, 1, 5, 10, 6, -1, -1, -1, -1, -1, -1, -1, -1, -1, -1],
    [1, 8, 3, 1, 9, 8, 5, 10, 6, -1, -1, -1, -1, -1, -1, -1],
    [1, 6, 5, 2, 6, 1, -1, -1, -1, -1, -1, -1, -1, -1, -1, -1],
    [1, 6, 5, 1, 2, 6, 3, 0, 8, -1, -1, -1, -1, -1, -1, -1],
    [9, 6, 5, 9, 0, 6, 0, 2, 6, -1, -1, -1, -1, -1, -1, -1],
    [5, 9, 8, 5, 8, 2, 5, 2, 6, 3, 2, 8, -1, -1, -1, -1],
    [2, 3, 11, 10, 6, 5, -1, -1, -1, -1, -1, -1, -1, -1, -1, -1],
    [11, 0, 8, 11, 2, 0, 10, 6, 5, -1, -1, -1, -1, -1, -1, -1],
    [0, 1, 9, 2, 3, 11, 5, 10, 6, -1, -1, -1, -1, -1, -1, -1],
    [5, 10, 6, 1, 9, 2, 9, 11, 2, 9, 8, 11, -1, -1, -1, -1],
    [6, 3, 11, 6, 5, 3, 5, 1, 3, -1, -1, -1, -1, -1, -1, -1],
    [0, 8, 11, 0, 11, 5, 0, 5, 1, 5, 11, 6, -1, -1, -1, -1],
    [3, 11, 6, 0, 3, 6, 0, 6, 5, 0, 5, 9, -1, -1, -1, -1],
    [6, 5, 9, 6, 9, 11, 11, 9, 8, -1, -1, -1, -1, -1, -1, -1],
];

/// Rows 80 to 95 of the marching cubes table.
pub const MC_CASES_5: [[i32; 16]; 16] = [
    [5, 10, 6, 4, 7, 8, -1, -1, -1, -1, -1, -1, -1, -1, -1, -1],
    [4, 3, 0, 4, 7, 3, 6, 5, 10, -1, -1, -1, -1, -1, -1, -1],
    [1, 9, 0, 5, 10, 6, 8, 4, 7, -1, -1, -1, -1, -1, -1, -1],
    [10, 6, 5, 1, 9, 7, 1, 7, 3, 7, 9, 4, -1, -1, -1, -1],
    [6, 1, 2, 6, 5, 1, 4, 7, 8, -1, -1, -1, -1, -1, -1, -1],
    [1, 2, 5, 5, 2, 6, 3, 0, 4, 3, 4, 7, -1, -1, -1, -1],
    [8, 4, 7, 9, 0, 5, 0, 6, 5, 0, 2, 6, -1, -1, -1, -1],
    [7, 3, 9, 7, 9, 4, 3, 2, 9, 5, 9, 6, 2, 6, 9, -1],
    [3, 11, 2, 7, 8, 4, 10, 6, 5, -1, -1, -1, -1, -1, -1, -1],
    [5, 10, 6, 4, 7, 2, 4, 2, 0, 2, 7, 11, -1, -1, -1, -1],
    [0, 1, 9, 4, 7, 8, 2, 3, 11, 5, 10, 6, -1, -1, -1, -1],
    [9, 2, 1, 9, 11, 2, 9, 4, 11, 7, 11, 4, 5, 10, 6, -1],
    [8, 4, 7, 3, 11, 5, 3, 5, 1, 5, 11, 6, -1, -1, -1, -1],
    [5, 1, 11, 5, 11, 6, 1, 0, 11, 7, 11, 4, 0, 4, 11, -1],
    [0, 5, 9, 0, 6, 5, 0, 3, 6, 11, 6, 3, 8, 4, 7, -1],
    [6, 5, 9, 6, 9, 11, 4, 7, 9, 7, 11, 9, -1, -1, -1, -1],
];

/// Rows 96 to 111 of the marching cubes table.
pub const MC_CASES_6: [[i32; 16]; 16] = [
    [10, 4, 9, 6, 4, 10, -1, -1, -1, -1, -1, -1, -1, -1, -1, -1],
    [4, 10, 6, 4, 9, 10, 0, 8, 3, -1, -1, -1, -1, -1, -1, -1],
    [10, 0, 1, 10, 6, 0, 6, 4, 0, -1, -1, -1, -1, -1, -1, -1],
    [8, 3, 1, 8, 1, 6, 8, 6, 4, 6, 1, 10, -1, -1, -1, -1],
    [1, 4, 9, 1, 2, 4, 2, 6, 4, -1, -1, -1, -1, -1, -1, -1],
    [3, 0, 8, 1, 2, 9, 2, 4, 9, 2, 6, 4, -1, -1, -1, -1],
    [0, 2, 4, 4, 2, 6, -1, -1, -1, -1, -1, -1, -1, -1, -1, -1],
    [8, 3, 2, 8, 2, 4, 4, 2, 6, -1, -1, -1, -1, -1, -1, -1],
    [10, 4, 9, 10, 6, 4, 11, 2, 3, -1, -1, -1, -1, -1, -1, -1],
    [0, 8, 2, 2, 8, 11, 4, 9, 10, 4, 10, 6, -1, -1, -1, -1],
    [3, 11, 2, 0, 1, 6, 0, 6, 4, 6, 1, 10, -1, -1, -1, -1],
    [6, 4, 1, 6, 1, 10, 4, 8, 1, 2, 1, 11, 8, 11, 1, -1],
    [9, 6, 4, 9, 3, 6, 9, 1, 3, 11, 6, 3, -1, -1, -1, -1],
    [8, 11, 1, 8, 1, 0, 11, 6, 1, 9, 1, 4, 6, 4, 1, -1],
    [3, 11, 6, 3, 6, 0, 0, 6, 4, -1, -1, -1, -1, -1, -1, -1],
    [6, 4, 8, 11, 6, 8, -1, -1, -1, -1, -1, -1, -1, -1, -1, -1],
];

/// Rows 112 to 127 of the marching cubes table.
pub const MC_CASES_7: [[i32; 16]; 16] = [
    [7, 10, 6, 7, 8, 10, 8, 9, 10, -1, -1, -1, -1, -1, -1, -1],
    [0, 7, 3, 0, 10, 7, 0, 9, 10, 6, 7, 10, -1, -1, -1, -1],
    [10, 6, 7, 1, 10, 7, 1, 7, 8, 1, 8, 0, -1, -1, -1, -1],
    [10, 6, 7, 10, 7, 1, 1, 7, 3, -1, -1, -1, -1, -1, -1, -1],
    [1, 2, 6, 1, 6, 8, 1, 8, 9, 8, 6, 7, -1, -1, -1, -1],
    [2, 6, 9, 2, 9, 1, 6, 7, 9, 0, 9, 3, 7, 3, 9, -1],
    [7, 8, 0, 7, 0, 6, 6, 0, 2, -1, -1, -1, -1, -1, -1, -1],
    [7, 3, 2, 6, 7, 2, -1, -1, -1, -1, -1, -1, -1, -1, -1, -1],
    [2, 3, 11, 10, 6, 8, 10, 8, 9, 8, 6, 7, -1, -1, -1, -1],
    [2, 0, 7, 2, 7, 11, 0, 9, 7, 6, 7, 10, 9, 10, 7, -1],
    [1, 8, 0, 1, 7, 8, 1, 10, 7, 6, 7, 10, 2, 3, 11, -1],
    [11, 2, 1, 11, 1, 7, 10, 6, 1, 6, 7, 1, -1, -1, -1, -1],
    [8, 9, 6, 8, 6, 7, 9, 1, 6, 11, 6, 3, 1, 3, 6, -1],
    [0, 9, 1, 11, 6, 7, -1, -1, -1, -1, -1, -1, -1, -1, -1, -1],
    [7, 8, 0, 7, 0, 6, 3, 11, 0, 11, 6, 0, -1, -1, -1, -1],
    [7, 11, 6, -1, -1, -1, -1, -1, -1, -1, -1, -1, -1, -1, -1, -1],
];

/// Rows 128 to 143 of the marching cubes table.
pub const MC_CASES_8: [[i32; 16]; 16] = [
    [7, 6, 11, -1, -1, -1, -1, -1, -1, -1, -1, -1, -1, -1, -1, -1],
    [3, 0, 8, 11, 7, 6, -1, -1, -1, -1, -1, -1, -1, -1, -1, -1],
    [0, 1, 9, 11, 7, 6, -1, -1, -1, -1, -1, -1, -1, -1, -1, -1],
    [8, 1, 9, 8, 3, 1, 11, 7, 6, -1, -1, -1, -1, -1, -1, -1],
    [10, 1, 2, 6, 11, 7, -1, -1, -1, -1, -1, -1, -1, -1, -1, -1],
    [1, 2, 10, 3, 0, 8, 6, 11, 7, -1, -1, -1, -1, -1, -1, -1],
    [2, 9, 0, 2, 10, 9, 6, 11, 7, -1, -1, -1, -1, -1, -1, -1],
    [6, 11, 7, 2, 10, 3, 10, 8, 3, 10, 9, 8, -1, -1, -1, -1],
    [7, 2, 3, 6, 2, 7, -1, -1, -1, -1, -1, -1, -1, -1, -1, -1],
    [7, 0, 8, 7, 6, 0, 6, 2, 0, -1, -1, -1, -1, -1, -1, -1],
    [2, 7, 6, 2, 3, 7, 0, 1, 9, -1, -1, -1, -1, -1, -1, -1],
    [1, 6, 2, 1, 8, 6, 1, 9, 8, 8, 7, 6, -1, -1, -1, -1],
    [10, 7, 6, 10, 1, 7, 1, 3, 7, -1, -1, -1, -1, -1, -1, -1],
    [10, 7, 6, 1, 7, 10, 1, 8, 7, 1, 0, 8, -1, -1, -1, -1],
    [0, 3, 7, 0, 7, 10, 0, 10, 9, 6, 10, 7, -1, -1, -1, -1],
    [7, 6, 10, 7, 10, 8, 8, 10, 9, -1, -1, -1, -1, -1, -1, -1],
];

/// Rows 144 to 159 of the marching cubes table.
pub const MC_CASES_9: [[i32; 16]; 16] = [
    [6, 8, 4, 11, 8, 6, -1, -1, -1, -1, -1, -1, -1, -1, -1, -1],
    [3, 6, 11, 3, 0, 6, 0, 4, 6, -1, -1, -1, -1, -1, -1, -1],
    [8, 6, 11, 8, 4, 6, 9, 0, 1, -1, -1, -1, -1, -1, -1, -1],
    [9, 4, 6, 9, 6, 3, 9, 3, 1, 11, 3, 6, -1, -1, -1, -1],
    [6, 8, 4, 6, 11, 8, 2, 10, 1, -1, -1, -1, -1, -1, -1, -1],
    [1, 2, 10, 3, 0, 11, 0, 6, 11, 0, 4, 6, -1, -1, -1, -1],
    [4, 11, 8, 4, 6, 11, 0, 2, 9, 2, 10, 9, -1, -1, -1, -1],
    [10, 9, 3, 10, 3, 2, 9, 4, 3, 11, 3, 6, 4, 6, 3, -1],
    [8, 2, 3, 8, 4, 2, 4, 6, 2, -1, -1, -1, -1, -1, -1, -1],
    [0, 4, 2, 4, 6, 2, -1, -1, -1, -1, -1, -1, -1, -1, -1, -1],
    [1, 9, 0, 2, 3, 4, 2, 4, 6, 4, 3, 8, -1, -1, -1, -1],
    [1, 9, 4, 1, 4, 2, 2, 4, 6, -1, -1, -1, -1, -1, -1, -1],
    [8, 1, 3, 8, 6, 1, 8, 4, 6, 6, 10, 1, -1, -1, -1, -1],
    [10, 1, 0, 10, 0, 6, 6, 0, 4, -1, -1, -1, -1, -1, -1, -1],
    [4, 6, 3, 4, 3, 8, 6, 10, 3, 0, 3, 9, 10, 9, 3, -1],
    [10, 9, 4, 6, 10, 4, -1, -1, -1, -1, -1, -1, -1, -1, -1, -1],
];

/// Rows 160 to 175 of the marching cubes table.
pub const MC_CASES_A: [[i32; 16]; 16] = [
    [4, 9, 5, 7, 6, 11, -1, -1, -1, -1, -1, -1, -1, -1, -1, -1],
    [0, 8, 3, 4, 9, 5, 11, 7, 6, -1, -1, -1, -1, -1, -1, -1],
    [5, 0, 1, 5, 4, 0, 7, 6, 11, -1, -1, -1, -1, -1, -1, -1],
    [11, 7, 6, 8, 3, 4, 3, 5, 4, 3, 1, 5, -1, -1, -1, -1],
    [9, 5, 4, 10, 1, 2, 7, 6, 11, -1, -1, -1, -1, -1, -1, -1],
    [6, 11, 7, 1, 2, 10, 0, 8, 3, 4, 9, 5, -1, -1, -1, -1],
    [7, 6, 11, 5, 4, 10, 4, 2, 10, 4, 0, 2, -1, -1, -1, -1],
    [3, 4, 8, 3, 5, 4, 3, 2, 5, 10, 5, 2, 11, 7, 6, -1],
    [7, 2, 3, 7, 6, 2, 5, 4, 9, -1, -1, -1, -1, -1, -1, -1],
    [9, 5, 4, 0, 8, 6, 0, 6, 2, 6, 8, 7, -1, -1, -1, -1],
    [3, 6, 2, 3, 7, 6, 1, 5, 0, 5, 4, 0, -1, -1, -1, -1],
    [6, 2, 8, 6, 8, 7, 2, 1, 8, 4, 8, 5, 1, 5, 8, -1],
    [9, 5, 4, 10, 1, 6, 1, 7, 6, 1, 3, 7, -1, -1, -1, -1],
    [1, 6, 10, 1, 7, 6, 1, 0, 7, 8, 7, 0, 9, 5, 4, -1],
    [4, 0, 10, 4, 10, 5, 0, 3, 10, 6, 10, 7, 3, 7, 10, -1],
    [7, 6, 10, 7, 10, 8, 5, 4, 10, 4, 8, 10, -1, -1, -1, -1],
];

/// Rows 176 to 191 of the marching cubes table.
pub const MC_CASES_B: [[i32; 16]; 16] = [
    [6, 9, 5, 6, 11, 9, 11, 8, 9, -1, -1, -1, -1, -1, -1, -1],
    [3, 6, 11, 0, 6, 3, 0, 5, 6, 0, 9, 5, -1, -1, -1, -1],
    [0, 11, 8, 0, 5, 11, 0, 1, 5, 5, 6, 11, -1, -1, -1, -1],
    [6, 11, 3, 6, 3, 5, 5, 3, 1, -1, -1, -1, -1, -1, -1, -1],
    [1, 2, 10, 9, 5, 11, 9, 11, 8, 11, 5, 6, -1, -1, -1, -1],
    [0, 11, 3, 0, 6, 11, 0, 9, 6, 5, 6, 9, 1, 2, 10, -1],
    [11, 8, 5, 11, 5, 6, 8, 0, 5, 10, 5, 2, 0, 2, 5, -1],
    [6, 11, 3, 6, 3, 5, 2, 10, 3, 10, 5, 3, -1, -1, -1, -1],
    [5, 8, 9, 5, 2, 8, 5, 6, 2, 3, 8, 2, -1, -1, -1, -1],
    [9, 5, 6, 9, 6, 0, 0, 6, 2, -1, -1, -1, -1, -1, -1, -1],
    [1, 5, 8, 1, 8, 0, 5, 6, 8, 3, 8, 2, 6, 2, 8, -1],
    [1, 5, 6, 2, 1, 6, -1, -1, -1, -1, -1, -1, -1, -1, -1, -1],
    [1, 3, 6, 1, 6, 10, 3, 8, 6, 5, 6, 9, 8, 9, 6, -1],
    [10, 1, 0, 10, 0, 6, 9, 5, 0, 5, 6, 0, -1, -1, -1, -1],
    [0, 3, 8, 5, 6, 10, -1, -1, -1, -1, -1, -1, -1, -1, -1, -1],
    [10, 5, 6, -1, -1, -1, -1, -1, -1, -1, -1, -1, -1, -1, -1, -1],
];

/// Rows 192 to 207 of the marching cubes table.
pub const MC_CASES_C: [[i32; 16]; 16] = [
    [11, 5, 10, 7, 5, 11, -1, -1, -1, -1, -1, -1, -1, -1, -1, -1],
    [11, 5, 10, 11, 7, 5, 8, 3, 0, -1, -1, -1, -1, -1, -1, -1],
    [5, 11, 7, 5, 10, 11, 1, 9, 0, -1, -1, -1, -1, -1, -1, -1],
    [10, 7, 5, 10, 11, 7, 9, 8, 1, 8, 3, 1, -1, -1, -1, -1],
    [11, 1, 2, 11, 7, 1, 7, 5, 1, -1, -1, -1, -1, -1, -1, -1],
    [0, 8, 3, 1, 2, 7, 1, 7, 5, 7, 2, 11, -1, -1, -1, -1],
    [9, 7, 5, 9, 2, 7, 9, 0, 2, 2, 11, 7, -1, -1, -1, -1],
    [7, 5, 2, 7, 2, 11, 5, 9, 2, 3, 2, 8, 9, 8, 2, -1],
    [2, 5, 10, 2, 3, 5, 3, 7, 5, -1, -1, -1, -1, -1, -1, -1],
    [8, 2, 0, 8, 5, 2, 8, 7, 5, 10, 2, 5, -1, -1, -1, -1],
    [9, 0, 1, 5, 10, 3, 5, 3, 7, 3, 10, 2, -1, -1, -1, -1],
    [9, 8, 2, 9, 2, 1, 8, 7, 2, 10, 2, 5, 7, 5, 2, -1],
    [1, 3, 5, 3, 7, 5, -1, -1, -1, -1, -1, -1, -1, -1, -1, -1],
    [0, 8, 7, 0, 7, 1, 1, 7, 5, -1, -1, -1, -1, -1, -1, -1],
    [9, 0, 3, 9, 3, 5, 5, 3, 7, -1, -1, -1, -1, -1, -1, -1],
    [9, 8, 7, 5, 9, 7, -1, -1, -1, -1, -1, -1, -1, -1, -1, -1],
];

/// Rows 208 to 223 of the marching cubes table.
pub const MC_CASES_D: [[i32; 16]; 16] = [
    [5, 8, 4, 5, 10, 8, 10, 11, 8, -1, -1, -1, -1, -1, -1, -1],
    [5, 0, 4, 5, 11, 0, 5, 10, 11, 11, 3, 0, -1, -1, -1, -1],
    [0, 1, 9, 8, 4, 10, 8, 10, 11, 10, 4, 5, -1, -1, -1, -1],
    [10, 11, 4, 10, 4, 5, 11, 3, 4, 9, 4, 1, 3, 1, 4, -1],
    [2, 5, 1, 2, 8, 5, 2, 11, 8, 4, 5, 8, -1, -1, -1, -1],
    [0, 4, 11, 0, 11, 3, 4, 5, 11, 2, 11, 1, 5, 1, 11, -1],
    [0, 2, 5, 0, 5, 9, 2, 11, 5, 4, 5, 8, 11, 8, 5, -1],
    [9, 4, 5, 2, 11, 3, -1, -1, -1, -1, -1, -1, -1, -1, -1, -1],
    [2, 5, 10, 3, 5, 2, 3, 4, 5, 3, 8, 4, -1, -1, -1, -1],
    [5, 10, 2, 5, 2, 4, 4, 2, 0, -1, -1, -1, -1, -1, -1, -1],
    [3, 10, 2, 3, 5, 10, 3, 8, 5, 4, 5, 8, 0, 1, 9, -1],
    [5, 10, 2, 5, 2, 4, 1, 9, 2, 9, 4, 2, -1, -1, -1, -1],
    [8, 4, 5, 8, 5, 3, 3, 5, 1, -1, -1, -1, -1, -1, -1, -1],
    [0, 4, 5, 1, 0, 5, -1, -1, -1, -1, -1, -1, -1, -1, -1, -1],
    [8, 4, 5, 8, 5, 3, 9, 0, 5, 0, 3, 5, -1, -1, -1, -1],
    [9, 4, 5, -1, -1, -1, -1, -1, -1, -1, -1, -1, -1, -1, -1, -1],
];

/// Rows 224 to 239 of the marching cubes table.
pub const MC_CASES_E: [[i32; 16]; 16] = [
    [4, 11, 7, 4, 9, 11, 9, 10, 11, -1, -1, -1, -1, -1, -1, -1],
    [0, 8, 3, 4, 9, 7, 9, 11, 7, 9, 10, 11, -1, -1, -1, -1],
    [1, 10, 11, 1, 11, 4, 1, 4, 0, 7, 4, 11, -1, -1, -1, -1],
    [3, 1, 4, 3, 4, 8, 1, 10, 4, 7, 4, 11, 10, 11, 4, -1],
    [4, 11, 7, 9, 11, 4, 9, 2, 11, 9, 1, 2, -1, -1, -1, -1],
    [9, 7, 4, 9, 11, 7, 9, 1, 11, 2, 11, 1, 0, 8, 3, -1],
    [11, 7, 4, 11, 4, 2, 2, 4, 0, -1, -1, -1, -1, -1, -1, -1],
    [11, 7, 4, 11, 4, 2, 8, 3, 4, 3, 2, 4, -1, -1, -1, -1],
    [2, 9, 10, 2, 7, 9, 2, 3, 7, 7, 4, 9, -1, -1, -1, -1],
    [9, 10, 7, 9, 7, 4, 10, 2, 7, 8, 7, 0, 2, 0, 7, -1],
    [3, 7, 10, 3, 10, 2, 7, 4, 10, 1, 10, 0, 4, 0, 10, -1],
    [1, 10, 2, 8, 7, 4, -1, -1, -1, -1, -1, -1, -1, -1, -1, -1],
    [4, 9, 1, 4, 1, 7, 7, 1, 3, -1, -1, -1, -1, -1, -1, -1],
    [4, 9, 1, 4, 1, 7, 0, 8, 1, 8, 7, 1, -1, -1, -1, -1],
    [4, 0, 3, 7, 4, 3, -1, -1, -1, -1, -1, -1, -1, -1, -1, -1],
    [4, 8, 7, -1, -1, -1, -1, -1, -1, -1, -1, -1, -1, -1, -1, -1],
];

/// Rows 240 to 255 of the marching cubes table.
pub const MC_CASES_F: [[i32; 16]; 16] = [
    [9, 10, 8, 10, 11, 8, -1, -1, -1, -1, -1, -1, -1, -1, -1, -1],
    [3, 0, 9, 3, 9, 11, 11, 9, 10, -1, -1, -1, -1, -1, -1, -1],
    [0, 1, 10, 0, 10, 8, 8, 10, 11, -1, -1, -1, -1, -1, -1, -1],
    [3, 1, 10, 11, 3, 10, -1, -1, -1, -1, -1, -1, -1, -1, -1, -1],
    [1, 2, 11, 1, 11, 9, 9, 11, 8, -1, -1, -1, -1, -1, -1, -1],
    [3, 0, 9, 3, 9, 11, 1, 2, 9, 2, 11, 9, -1, -1, -1, -1],
    [0, 2, 11, 8, 0, 11, -1, -1, -1, -1, -1, -1, -1, -1, -1, -1],
    [3, 2, 11, -1, -1, -1, -1, -1, -1, -1, -1, -1, -1, -1, -1, -1],
    [2, 3, 8, 2, 8, 10, 10, 8, 9, -1, -1, -1, -1, -1, -1, -1],
    [9, 10, 2, 0, 9, 2, -1, -1, -1, -1, -1, -1, -1, -1, -1, -1],
    [2, 3, 8, 2, 8, 10, 0, 1, 8, 1, 10, 8, -1, -1, -1, -1],
    [1, 10, 2, -1, -1, -1, -1, -1, -1, -1, -1, -1, -1, -1, -1, -1],
    [1, 3, 8, 9, 1, 8, -1, -1, -1, -1, -1, -1, -1, -1, -1, -1],
    [0, 9, 1, -1, -1, -1, -1, -1, -1, -1, -1, -1, -1, -1, -1, -1],
    [0, 3, 8, -1, -1, -1, -1, -1, -1, -1, -1, -1, -1, -1, -1, -1],
    [-1, -1, -1, -1, -1, -1, -1, -1, -1, -1, -1, -1, -1, -1, -1, -1],
];

/// Row of the marching cubes table for the given case index.
#[verifier::opaque]
pub open spec fn mc_case_spec(case: int) -> [i32; 16]
    recommends
        0 <= case < 256,
{
    if case < 64 {
        if case < 16 {
            MC_CASES_0[case]
        } else if case < 32 {
            MC_CASES_1[case - 16]
        } else if case < 48 {
            MC_CASES_2[case - 32]
        } else {
            MC_CASES_3[case - 48]
        }
    } else if case < 128 {
        if case < 80 {
            MC_CASES_4[case - 64]
        } else if case < 96 {
            MC_CASES_5[case - 80]
        } else if case < 112 {
            MC_CASES_6[case - 96]
        } else {
            MC_CASES_7[case - 112]
        }
    } else if case < 192 {
        if case < 144 {
            MC_CASES_8[case - 128]
        } else if case < 160 {
            MC_CASES_9[case - 144]
        } else if case < 176 {
            MC_CASES_A[case - 160]
        } else {
            MC_CASES_B[case - 176]
        }
    } else {
        if case < 208 {
            MC_CASES_C[case - 192]
        } else if case < 224 {
            MC_CASES_D[case - 208]
        } else if case < 240 {
            MC_CASES_E[case - 224]
        } else {
            MC_CASES_F[case - 240]
        }
    }
}

/// Returns a copy of the raw marching cubes table row for the given case index.
pub fn mc_case(case: usize) -> (row: [i32; 16])
    requires
        case < 256,
    ensures
        row == mc_case_spec(case as int),
{
    proof {
        reveal(mc_case_spec);
    }
    if case < 64 {
        if case < 16 {
            MC_CASES_0[case]
        } else if case < 32 {
            MC_CASES_1[case - 16]
        } else if case < 48 {
            MC_CASES_2[case - 32]
        } else {
            MC_CASES_3[case - 48]
        }
    } else if case < 128 {
        if case < 80 {
            MC_CASES_4[case - 64]
        } else if case < 96 {
            MC_CASES_5[case - 80]
        } else if case < 112 {
            MC_CASES_6[case - 96]
        } else {
            MC_CASES_7[case - 112]
        }
    } else if case < 192 {
        if case < 144 {
            MC_CASES_8[case - 128]
        } else if case < 160 {
            MC_CASES_9[case - 144]
        } else if case < 176 {
            MC_CASES_A[case - 160]
        } else {
            MC_CASES_B[case - 176]
        }
    } else {
        if case < 208 {
            MC_CASES_C[case - 192]
        } else if case < 224 {
            MC_CASES_D[case - 208]
        } else if case < 240 {
            MC_CASES_E[case - 224]
        } else {
            MC_CASES_F[case - 240]
        }
    }
}


/// Weight that corner `k` contributes to the case index.
pub open spec fn corner_weight(flag: bool, weight: int) -> int {
    if flag {
        weight
    } else {
        0
    }
}

/// Case index encoded by the eight corner flags: corner `k` has bit weight `2^k`.
pub open spec fn flags_to_index_spec(flags: Seq<bool>) -> int
    recommends
        flags.len() == 8,
{
    corner_weight(flags[0], 1) + corner_weight(flags[1], 2) + corner_weight(flags[2], 4)
        + corner_weight(flags[3], 8) + corner_weight(flags[4], 16) + corner_weight(flags[5], 32)
        + corner_weight(flags[6], 64) + corner_weight(flags[7], 128)
}

/// Corner flags encoded by a case index: corner `k` is inside iff bit `2^k` is set.
pub open spec fn index_to_flags_spec(index: int) -> Seq<bool> {
    Seq::new(8, |k: int| index / pow2_spec(k) % 2 == 1)
}

/// `2^k` for the small exponents used by the corner encoding.
pub open spec fn pow2_spec(k: int) -> int
    decreases k,
{
    if k <= 0 {
        1
    } else {
        2 * pow2_spec(k - 1)
    }
}

/// The powers of two that weight the eight corners.
pub proof fn lemma_pow2_small_values()
    ensures
        pow2_spec(0) == 1,
        pow2_spec(1) == 2,
        pow2_spec(2) == 4,
        pow2_spec(3) == 8,
        pow2_spec(4) == 16,
        pow2_spec(5) == 32,
        pow2_spec(6) == 64,
        pow2_spec(7) == 128,
{
    assert(pow2_spec(0) == 1);
    assert(pow2_spec(1) == 2);
    assert(pow2_spec(2) == 4);
    assert(pow2_spec(3) == 8);
    assert(pow2_spec(4) == 16);
    assert(pow2_spec(5) == 32);
    assert(pow2_spec(6) == 64);
    assert(pow2_spec(7) == 128);
}

/// Converts an array of bools representing bits to the corresponding case
/// index; the order of the bits is least to most significant.
pub fn flags_to_index(flags: &[bool; 8]) -> (index: usize)
    ensures
        index == flags_to_index_spec(flags@),
        index < 256,
{
    let mut index: usize = 0;
    if flags[0] {
        index += 1;
    }
    if flags[1] {
        index += 2;
    }
    if flags[2] {
        index += 4;
    }
    if flags[3] {
        index += 8;
    }
    if flags[4] {
        index += 16;
    }
    if flags[5] {
        index += 32;
    }
    if flags[6] {
        index += 64;
    }
    if flags[7] {
        index += 128;
    }
    index
}

/// Converts a case index back to the corner flags it encodes.
pub fn index_to_flags(index: usize) -> (flags: [bool; 8])
    requires
        index < 256,
    ensures
        flags@ == index_to_flags_spec(index as int),
{
    let flags = [
        index % 2 == 1,
        index / 2 % 2 == 1,
        index / 4 % 2 == 1,
        index / 8 % 2 == 1,
        index / 16 % 2 == 1,
        index / 32 % 2 == 1,
        index / 64 % 2 == 1,
        index / 128 % 2 == 1,
    ];
    proof {
        lemma_pow2_small_values();
        assert(flags@ =~= index_to_flags_spec(index as int));
    }
    flags
}

/// Returns a copy of the marching cubes case corresponding to the given
/// corner configuration.
pub fn get_marching_cubes_triangulation_raw(vertices_inside: &[bool; 8]) -> (row: [i32; 16])
    ensures
        row == mc_case_spec(flags_to_index_spec(vertices_inside@)),
{
    let index = flags_to_index(vertices_inside);
    mc_case(index)
}

/// Triangle with the given position in a raw case, with the winding order of
/// its triplet reversed; `None` where the case's padding has begun.
pub open spec fn triangle_of_case(row: Seq<i32>, i: int) -> Option<[i32; 3]>
    recommends
        row.len() == 16,
        0 <= i < 5,
{
    if row[3 * i] == -1 {
        None
    } else {
        Some([row[3 * i + 2], row[3 * i + 1], row[3 * i]])
    }
}

/// The triangles among the first `n` triplet slots of a raw case, in slot
/// order, each with its winding reversed.
pub open spec fn triangles_up_to(row: Seq<i32>, n: int) -> Seq<[i32; 3]>
    decreases n,
{
    if n <= 0 {
        Seq::empty()
    } else {
        match triangle_of_case(row, n - 1) {
            Some(t) => triangles_up_to(row, n - 1).push(t),
            None => triangles_up_to(row, n - 1),
        }
    }
}

/// All triangles of a raw case, winding reversed.
pub open spec fn case_triangles(row: Seq<i32>) -> Seq<[i32; 3]> {
    triangles_up_to(row, 5)
}

/// Number of triplet slots of a raw case that hold a triangle.
pub open spec fn raw_triangle_count(row: Seq<i32>, n: int) -> int
    decreases n,
{
    if n <= 0 {
        0
    } else {
        raw_triangle_count(row, n - 1) + if row[3 * (n - 1)] == -1 {
            0int
        } else {
            1int
        }
    }
}

/// Extracts the triangle with the given index from the raw triangulation.
///
/// The triplet order is reversed so that the winding order of the returned
/// triangle makes its normal point outwards.
pub fn triangulation_to_triangle(triangulation: &[i32; 16], triangle_index: usize) -> (r: Option<
    [i32; 3],
>)
    requires
        triangle_index < 5,
    ensures
        r == triangle_of_case(triangulation@, triangle_index as int),
{
    let i = triangle_index;
    if triangulation[3 * i] == -1 {
        None
    } else {
        Some([triangulation[3 * i + 2], triangulation[3 * i + 1], triangulation[3 * i]])
    }
}

/// Returns the marching cubes triangulation corresponding to the given
/// corner configuration.
///
/// In the configuration, a `true` value indicates that the given corner is
/// inside the iso-surface, i.e. above the iso-surface threshold. At most
/// five triangles are returned, each given by the indices of the cube edges
/// its corners lie on, with the winding order of the raw table reversed.
pub fn marching_cubes_triangulation_iter(vertices_inside: &[bool; 8]) -> (triangles: Vec<[i32; 3]>)
    ensures
        triangles@ == case_triangles(mc_case_spec(flags_to_index_spec(vertices_inside@))@),
{
    let triangulation = get_marching_cubes_triangulation_raw(vertices_inside);
    let mut triangles: Vec<[i32; 3]> = Vec::new();
    let mut i: usize = 0;
    while i < 5
        invariant
            i <= 5,
            triangulation@ == mc_case_spec(flags_to_index_spec(vertices_inside@))@,
            triangles@ == triangles_up_to(triangulation@, i as int),
        decreases 5 - i,
    {
        match triangulation_to_triangle(&triangulation, i) {
            Some(triangle) => triangles.push(triangle),
            None => (),
        }
        i += 1;
    }
    triangles
}


/// A case index below 256 is recomposed exactly from its eight bits.
proof fn lemma_bits_recompose(m: u32)
    by (bit_vector)
    requires
        m < 256,
    ensures
        m % 2 + 2 * (m / 2 % 2) + 4 * (m / 4 % 2) + 8 * (m / 8 % 2) + 16 * (m / 16 % 2) + 32 * (m
            / 32 % 2) + 64 * (m / 64 % 2) + 128 * (m / 128 % 2) == m,
{
}

/// Case round trip: converting a case index to its corner flags and the
/// flags back to an index yields the original index.
pub proof fn lemma_flag_conversion_roundtrip(index: int)
    requires
        0 <= index < 256,
    ensures
        flags_to_index_spec(index_to_flags_spec(index)) == index,
{
    let m = index as u32;
    lemma_bits_recompose(m);
    lemma_pow2_small_values();
    let flags = index_to_flags_spec(index);
    assert(flags[0] == (index % 2 == 1) && flags[1] == (index / 2 % 2 == 1) && flags[2] == (index
        / 4 % 2 == 1) && flags[3] == (index / 8 % 2 == 1) && flags[4] == (index / 16 % 2 == 1)
        && flags[5] == (index / 32 % 2 == 1) && flags[6] == (index / 64 % 2 == 1) && flags[7] == (
    index / 128 % 2 == 1));
    assert(corner_weight(flags[0], 1) == index % 2);
    assert(corner_weight(flags[1], 2) == 2 * (index / 2 % 2));
    assert(corner_weight(flags[2], 4) == 4 * (index / 4 % 2));
    assert(corner_weight(flags[3], 8) == 8 * (index / 8 % 2));
    assert(corner_weight(flags[4], 16) == 16 * (index / 16 % 2));
    assert(corner_weight(flags[5], 32) == 32 * (index / 32 % 2));
    assert(corner_weight(flags[6], 64) == 64 * (index / 64 % 2));
    assert(corner_weight(flags[7], 128) == 128 * (index / 128 % 2));
}

} // verus!
