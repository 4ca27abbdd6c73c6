//! Surface reconstruction core for SPH particle data using marching cubes.
//!
//! The crate holds the discrete heart of the reconstruction pipeline: the
//! marching cubes lookup table, the uniform background grid with its index
//! algebra, the connectivity stage of the triangulator with its edge-vertex
//! deduplication, the reconstruction parameters, and the in-memory data
//! model of VTK pieces. Floating-point arithmetic (kernel
//! evaluation, density splatting, vertex interpolation) is supplied by the
//! caller: every scalar of the `Real` kind is threaded through as an opaque
//! type parameter, and numeric conversions are passed in as closures.

mod aabb;
/// Triangulation of density maps using marching cubes.
pub mod marching_cubes;
/// Basic mesh types used by the library.
pub mod mesh;
/// Types related to the virtual background grid used for marching cubes.
pub mod uniform_grid;
/// In-memory model of VTK data pieces and the conversions that read them.
pub mod vtk_format;
/// Workspace for reusing allocated memory between reconstructions.
pub mod workspace;

pub use aabb::AxisAlignedBoundingBox3d;
pub use uniform_grid::{GridConstructionError, UniformGrid};

use vstd::prelude::*;

use crate::aabb::{scalar_converts_to, scalar_conversion_fails, aabb_conversion_fails, aabb_converted};
use crate::mesh::TriMesh3d;
use crate::workspace::LocalReconstructionWorkspace;

verus! {

/// Criterion used for subdivision of the octree cells during spatial
/// decomposition.
#[derive(Clone, Copy, Debug, PartialEq, Eq, Structural)]
pub enum SubdivisionCriterion {
    /// Split a node while it owns more than the given number of particles.
    MaxParticleCount(usize),
    /// Split nodes down to the given fixed depth.
    MaxDepth(usize),
}

/// Parameters for the spatial decomposition.
#[derive(Clone, Copy, Debug, PartialEq)]
pub struct SpatialDecompositionParameters<R> {
    /// Criterion used for subdivision of the octree cells.
    pub subdivision_criterion: SubdivisionCriterion,
    /// Safety factor applied to the kernel radius when it is used as a
    /// margin to collect ghost particles in the leaf nodes.
    pub ghost_particle_safety_factor: Option<R>,
    /// Whether to stitch all disjoint subdomain meshes to a global manifold
    /// mesh.
    pub enable_stitching: bool,
}

/// An optional scalar converted through `convert`: present exactly where the
/// original is present, and then a value the conversion allows.
pub open spec fn option_scalar_converted<R, T, F: Fn(R) -> Option<T>>(
    convert: F,
    original: Option<R>,
    converted: Option<T>,
) -> bool {
    match original {
        Some(x) => converted matches Some(y) && scalar_converts_to(convert, x, y),
        None => converted is None,
    }
}

impl<R: Copy> SpatialDecompositionParameters<R> {
    /// Tries to convert the parameters from one scalar kind to another with
    /// the given conversion, returns `None` if a conversion fails.
    pub fn try_convert<T: Copy, F: Fn(R) -> Option<T>>(&self, convert: &F) -> (result: Option<
        SpatialDecompositionParameters<T>,
    >)
        requires
            forall|x: R| call_requires(*convert, (x,)),
        ensures
            match result {
                Some(converted) => converted.subdivision_criterion
                    == self.subdivision_criterion && converted.enable_stitching
                    == self.enable_stitching && option_scalar_converted(
                    *convert,
                    self.ghost_particle_safety_factor,
                    converted.ghost_particle_safety_factor,
                ),
                None => self.ghost_particle_safety_factor matches Some(r)
                    && scalar_conversion_fails(*convert, r),
            },
    {
        let ghost_particle_safety_factor = match &self.ghost_particle_safety_factor {
            Some(factor) => match convert(*factor) {
                Some(converted) => Some(converted),
                None => {
                    return None;
                },
            },
            None => None,
        };
        Some(
            SpatialDecompositionParameters {
                subdivision_criterion: self.subdivision_criterion,
                ghost_particle_safety_factor,
                enable_stitching: self.enable_stitching,
            },
        )
    }
}

/// Parameters for the surface reconstruction.
#[derive(Clone, Copy, Debug, PartialEq)]
pub struct Parameters<R> {
    /// Radius per particle, used to calculate the particle volume.
    pub particle_radius: R,
    /// Rest density of the fluid.
    pub rest_density: R,
    /// Compact support radius of the kernel: the distance from the particle
    /// where the kernel reaches zero, in distance units.
    pub kernel_radius: R,
    /// Particles without neighbors within this radius are considered
    /// "splash" or free particles and are skipped during the reconstruction.
    pub splash_detection_radius: Option<R>,
    /// Edge length of the marching cubes implicit background grid, in
    /// distance units.
    pub cube_size: R,
    /// Density threshold value distinguishing the inside of the fluid
    /// (above the threshold) from the outside (below it).
    pub iso_surface_threshold: R,
    /// Manually restricted domain of the surface reconstruction. If absent,
    /// the smallest bounding box enclosing all particles is computed.
    pub domain_aabb: Option<AxisAlignedBoundingBox3d<R>>,
    /// Whether to allow multi threading within the reconstruction procedure.
    pub enable_multi_threading: bool,
    /// Parameters for the spatial decomposition (octree subdivision) of the
    /// particles. If absent, no octree is generated and a global approach is
    /// used instead.
    pub spatial_decomposition: Option<SpatialDecompositionParameters<R>>,
}

/// An optional bounding box converted through `convert` componentwise.
pub open spec fn option_aabb_converted<R, T, F: Fn(R) -> Option<T>>(
    convert: F,
    original: Option<AxisAlignedBoundingBox3d<R>>,
    converted: Option<AxisAlignedBoundingBox3d<T>>,
) -> bool {
    match original {
        Some(aabb) => converted matches Some(converted_aabb) && aabb_converted(
            convert,
            aabb,
            converted_aabb,
        ),
        None => converted is None,
    }
}

/// The conversion `convert` reported failure on one of the scalar values
/// the parameters hold.
pub open spec fn parameters_conversion_fails<R, T, F: Fn(R) -> Option<T>>(
    convert: F,
    params: Parameters<R>,
) -> bool {
    ||| scalar_conversion_fails(convert, params.particle_radius)
    ||| scalar_conversion_fails(convert, params.rest_density)
    ||| scalar_conversion_fails(convert, params.kernel_radius)
    ||| (params.splash_detection_radius matches Some(r) && scalar_conversion_fails(convert, r))
    ||| scalar_conversion_fails(convert, params.cube_size)
    ||| scalar_conversion_fails(convert, params.iso_surface_threshold)
    ||| (params.domain_aabb matches Some(aabb) && aabb_conversion_fails(convert, aabb))
    ||| (params.spatial_decomposition matches Some(sd) && sd.ghost_particle_safety_factor matches
        Some(r) && scalar_conversion_fails(convert, r))
}

impl<R: Copy> Parameters<R> {
    /// Tries to convert the parameters from one scalar kind to another with
    /// the given conversion, returns `None` if a conversion fails.
    pub fn try_convert<T: Copy, F: Fn(R) -> Option<T>>(&self, convert: &F) -> (result: Option<
        Parameters<T>,
    >)
        requires
            forall|x: R| call_requires(*convert, (x,)),
        ensures
            match result {
                Some(converted) => scalar_converts_to(
                    *convert,
                    self.particle_radius,
                    converted.particle_radius,
                ) && scalar_converts_to(*convert, self.rest_density, converted.rest_density)
                    && scalar_converts_to(*convert, self.kernel_radius, converted.kernel_radius)
                    && option_scalar_converted(
                    *convert,
                    self.splash_detection_radius,
                    converted.splash_detection_radius,
                ) && scalar_converts_to(*convert, self.cube_size, converted.cube_size)
                    && scalar_converts_to(
                    *convert,
                    self.iso_surface_threshold,
                    converted.iso_surface_threshold,
                ) && option_aabb_converted(*convert, self.domain_aabb, converted.domain_aabb)
                    && converted.enable_multi_threading == self.enable_multi_threading && match self
                    .spatial_decomposition {
                    Some(sd) => converted.spatial_decomposition matches Some(converted_sd)
                        && converted_sd.subdivision_criterion == sd.subdivision_criterion
                        && converted_sd.enable_stitching == sd.enable_stitching
                        && option_scalar_converted(
                        *convert,
                        sd.ghost_particle_safety_factor,
                        converted_sd.ghost_particle_safety_factor,
                    ),
                    None => converted.spatial_decomposition is None,
                },
                None => parameters_conversion_fails::<R, T, F>(*convert, *self),
            },
    {
        let particle_radius = match convert(self.particle_radius) {
            Some(v) => v,
            None => {
                return None;
            },
        };
        let rest_density = match convert(self.rest_density) {
            Some(v) => v,
            None => {
                return None;
            },
        };
        let kernel_radius = match convert(self.kernel_radius) {
            Some(v) => v,
            None => {
                return None;
            },
        };
        let splash_detection_radius = match &self.splash_detection_radius {
            Some(r) => match convert(*r) {
                Some(v) => Some(v),
                None => {
                    return None;
                },
            },
            None => None,
        };
        let cube_size = match convert(self.cube_size) {
            Some(v) => v,
            None => {
                return None;
            },
        };
        let iso_surface_threshold = match convert(self.iso_surface_threshold) {
            Some(v) => v,
            None => {
                return None;
            },
        };
        let domain_aabb = match &self.domain_aabb {
            Some(aabb) => match aabb.try_convert(convert) {
                Some(converted) => Some(converted),
                None => {
                    return None;
                },
            },
            None => None,
        };
        let spatial_decomposition = match &self.spatial_decomposition {
            Some(sd) => match sd.try_convert(convert) {
                Some(converted) => Some(converted),
                None => {
                    return None;
                },
            },
            None => None,
        };
        Some(
            Parameters {
                particle_radius,
                rest_density,
                kernel_radius,
                splash_detection_radius,
                cube_size,
                iso_surface_threshold,
                domain_aabb,
                enable_multi_threading: self.enable_multi_threading,
                spatial_decomposition,
            },
        )
    }
}


/// Result data returned when the surface reconstruction was successful.
pub struct SurfaceReconstruction<R> {
    /// Background grid used for the density map and marching cubes.
    pub grid: Option<UniformGrid<R>>,
    /// Sparse density map used as input to marching cubes, keyed by flat
    /// grid point index.
    pub density_map: Option<Vec<(i64, R)>>,
    /// Surface mesh that is the result of the reconstruction.
    pub mesh: TriMesh3d<R>,
    /// Scratch buffers with allocated memory for subsequent reconstructions.
    pub workspace: LocalReconstructionWorkspace<R>,
}

impl<R: Copy> SurfaceReconstruction<R> {
    /// Returns a reference to the triangulated surface mesh that is the
    /// result of the reconstruction.
    pub fn mesh(&self) -> (mesh: &TriMesh3d<R>)
        ensures
            *mesh == self.mesh,
    {
        &self.mesh
    }

    /// Returns a reference to the sparse density map (discretized on the
    /// grid points of the background grid) that was used as input for
    /// marching cubes.
    pub fn density_map(&self) -> (density_map: Option<&Vec<(i64, R)>>)
        ensures
            match density_map {
                Some(map) => self.density_map matches Some(own) && *map == own,
                None => self.density_map is None,
            },
    {
        self.density_map.as_ref()
    }

    /// Returns a reference to the virtual background grid that the density
    /// map was discretized on.
    pub fn grid(&self) -> (grid: Option<&UniformGrid<R>>)
        ensures
            match grid {
                Some(g) => self.grid matches Some(own) && *g == own,
                None => self.grid is None,
            },
    {
        self.grid.as_ref()
    }
}

impl<R: Copy> Default for SurfaceReconstruction<R> {
    /// Returns an empty result object to pass into the in-place surface
    /// reconstruction.
    fn default() -> (empty: Self)
        ensures
            empty.grid is None,
            empty.density_map is None,
            empty.mesh.vertices@.len() == 0,
            empty.mesh.triangles@.len() == 0,
            empty.workspace.is_cleared(),
    {
        Self {
            grid: None,
            density_map: None,
            mesh: TriMesh3d::new(),
            workspace: LocalReconstructionWorkspace::new(),
        }
    }
}

/// Error type returned when the surface reconstruction fails.
#[derive(Clone, Debug, PartialEq)]
pub enum ReconstructionError {
    /// The virtual background grid could not be constructed.
    GridConstructionError(GridConstructionError),
    /// A parameter lies outside its documented range.
    InvalidParameter,
    /// Too few particles were given to reconstruct a surface.
    DegenerateInput,
    /// Any error of an external collaborator, carried as its message.
    Unknown(String),
}

impl ReconstructionError {
    /// Constructs the error for a failed grid construction.
    pub fn from_grid_error(error: GridConstructionError) -> (converted: Self)
        ensures
            converted == ReconstructionError::GridConstructionError(error),
    {
        ReconstructionError::GridConstructionError(error)
    }
}

/// Outcomes of the range checks on the scalar reconstruction parameters.
/// The scalar kind is opaque to the reconstruction core, so the caller, who
/// owns it, evaluates each comparison and hands the outcomes over.
#[derive(Clone, Copy, Debug, PartialEq, Eq, Structural)]
pub struct ParameterChecks {
    /// The particle radius is positive.
    pub particle_radius_is_positive: bool,
    /// The rest density is positive.
    pub rest_density_is_positive: bool,
    /// The kernel's compact support radius is positive.
    pub kernel_radius_is_positive: bool,
    /// The marching cubes grid's cube size is positive.
    pub cube_size_is_positive: bool,
    /// The iso-surface threshold is positive.
    pub iso_surface_threshold_is_positive: bool,
}

impl ParameterChecks {
    /// Every range check came out true.
    pub open spec fn all_in_range(self) -> bool {
        self.particle_radius_is_positive && self.rest_density_is_positive
            && self.kernel_radius_is_positive && self.cube_size_is_positive
            && self.iso_surface_threshold_is_positive
    }
}

/// Decides whether a reconstruction may start on the given input.
///
/// A parameter outside its range is rejected first; an empty particle set
/// is degenerate and rejected next; everything else is accepted.
pub fn validate_input(n_particles: usize, checks: &ParameterChecks) -> (result: Result<
    (),
    ReconstructionError,
>)
    ensures
        match result {
            Ok(()) => checks.all_in_range() && n_particles > 0,
            Err(ReconstructionError::InvalidParameter) => !checks.all_in_range(),
            Err(ReconstructionError::DegenerateInput) => checks.all_in_range() && n_particles == 0,
            Err(_) => false,
        },
{
    if !(checks.particle_radius_is_positive && checks.rest_density_is_positive
        && checks.kernel_radius_is_positive && checks.cube_size_is_positive
        && checks.iso_surface_threshold_is_positive) {
        return Err(ReconstructionError::InvalidParameter);
    }
    if n_particles == 0 {
        return Err(ReconstructionError::DegenerateInput);
    }
    Ok(())
}

} // verus!

