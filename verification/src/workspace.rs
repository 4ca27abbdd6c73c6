//! Workspace for reusing allocated memory between multiple surface
//! reconstructions.
//!
//! The buffers are plain vectors; a caller that runs reconstructions in
//! parallel gives each worker its own workspace. Clearing a vector keeps
//! its allocation, so the capacities survive from one reconstruction to the
//! next; the capacities themselves are not part of any contract, only the
//! lengths are.

use vstd::prelude::*;
use crate::mesh::TriMesh3d;

verus! {

/// Scratch buffers used by one reconstruction, reusable across
/// reconstructions.
pub struct LocalReconstructionWorkspace<R> {
    /// Storage for the particle positions.
    pub particle_positions: Vec<[R; 3]>,
    /// Storage for per particle neighbor lists.
    pub particle_neighbor_lists: Vec<Vec<usize>>,
    /// Storage for per particle densities.
    pub particle_densities: Vec<R>,
    /// Storage for the surface mesh being built.
    pub mesh: TriMesh3d<R>,
    /// Storage for the density level-set, keyed by flat grid point index.
    pub density_map: Vec<(i64, R)>,
}

impl<R: Copy> LocalReconstructionWorkspace<R> {
    /// All buffers of the workspace are empty.
    pub open spec fn is_cleared(self) -> bool {
        &&& self.particle_positions@.len() == 0
        &&& self.particle_neighbor_lists@.len() == 0
        &&& self.particle_densities@.len() == 0
        &&& self.mesh.vertices@.len() == 0
        &&& self.mesh.triangles@.len() == 0
        &&& self.density_map@.len() == 0
    }

    /// Constructs a workspace without allocating memory.
    pub fn new() -> (workspace: Self)
        ensures
            workspace.is_cleared(),
    {
        Self {
            particle_positions: Vec::new(),
            particle_neighbor_lists: Vec::new(),
            particle_densities: Vec::new(),
            mesh: TriMesh3d::new(),
            density_map: Vec::new(),
        }
    }

    /// Constructs a workspace with capacity for the given number of
    /// particles.
    pub fn with_capacity(capacity: usize) -> (workspace: Self)
        ensures
            workspace.is_cleared(),
    {
        Self {
            particle_positions: Vec::with_capacity(capacity),
            particle_neighbor_lists: Vec::with_capacity(capacity),
            particle_densities: Vec::with_capacity(capacity),
            mesh: TriMesh3d::new(),
            density_map: Vec::new(),
        }
    }

    /// Empties every buffer, keeping the allocations for the next
    /// reconstruction.
    pub fn clear(&mut self)
        ensures
            final(self).is_cleared(),
    {
        self.particle_positions.clear();
        self.particle_neighbor_lists.clear();
        self.particle_densities.clear();
        self.mesh.clear();
        self.density_map.clear();
    }
}

impl<R: Copy> Default for LocalReconstructionWorkspace<R> {
    /// Constructs a workspace without allocating memory.
    fn default() -> (workspace: Self)
        ensures
            workspace.is_cleared(),
    {
        Self::new()
    }
}

} // verus!
