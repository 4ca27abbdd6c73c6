use splashsurf_lib::SurfaceReconstruction;
use splashsurf_lib::workspace::LocalReconstructionWorkspace;

#[test]
fn test_workspace_construction_and_clear() {
    let mut workspace: LocalReconstructionWorkspace<f64> =
        LocalReconstructionWorkspace::with_capacity(16);
    assert!(workspace.particle_positions.is_empty());
    assert!(workspace.particle_densities.is_empty());
    workspace.particle_densities.push(1.0);
    workspace.particle_positions.push([0.0; 3]);
    workspace.clear();
    assert!(workspace.particle_positions.is_empty());
    assert!(workspace.particle_densities.is_empty());
    assert!(workspace.mesh.vertices.is_empty());
}

#[test]
fn test_surface_reconstruction_default_is_empty() {
    let surface: SurfaceReconstruction<f64> = SurfaceReconstruction::default();
    assert!(surface.mesh().vertices.is_empty());
    assert!(surface.mesh().triangles.is_empty());
    assert!(surface.grid().is_none());
    assert!(surface.density_map().is_none());
}
