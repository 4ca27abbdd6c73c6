use splashsurf_lib::{
    AxisAlignedBoundingBox3d, ParameterChecks, Parameters, ReconstructionError,
    SpatialDecompositionParameters, SubdivisionCriterion, validate_input,
};

fn f64_to_f32(x: f64) -> Option<f32> {
    let converted = x as f32;
    if converted.is_finite() || !x.is_finite() {
        Some(converted)
    } else {
        None
    }
}

fn example_parameters() -> Parameters<f64> {
    Parameters {
        particle_radius: 0.5,
        rest_density: 1000.0,
        kernel_radius: 2.0,
        splash_detection_radius: Some(1.0),
        cube_size: 0.25,
        iso_surface_threshold: 0.6,
        domain_aabb: Some(AxisAlignedBoundingBox3d::new(
            [-1.0, -2.0, -3.0],
            [1.0, 2.0, 3.0],
        )),
        enable_multi_threading: true,
        spatial_decomposition: Some(SpatialDecompositionParameters {
            subdivision_criterion: SubdivisionCriterion::MaxParticleCount(64),
            ghost_particle_safety_factor: Some(1.5),
            enable_stitching: true,
        }),
    }
}

#[test]
fn test_parameters_try_convert() {
    let params = example_parameters();
    let converted: Parameters<f32> = params.try_convert(&f64_to_f32).unwrap();
    assert_eq!(converted.particle_radius, 0.5f32);
    assert_eq!(converted.rest_density, 1000.0f32);
    assert_eq!(converted.kernel_radius, 2.0f32);
    assert_eq!(converted.splash_detection_radius, Some(1.0f32));
    assert_eq!(converted.cube_size, 0.25f32);
    assert_eq!(converted.iso_surface_threshold, 0.6f32);
    let aabb = converted.domain_aabb.unwrap();
    assert_eq!(aabb.min, [-1.0f32, -2.0, -3.0]);
    assert_eq!(aabb.max, [1.0f32, 2.0, 3.0]);
    assert!(converted.enable_multi_threading);
    let sd = converted.spatial_decomposition.unwrap();
    assert_eq!(
        sd.subdivision_criterion,
        SubdivisionCriterion::MaxParticleCount(64)
    );
    assert_eq!(sd.ghost_particle_safety_factor, Some(1.5f32));
    assert!(sd.enable_stitching);
}

#[test]
fn test_parameters_try_convert_out_of_range() {
    let mut params = example_parameters();
    params.rest_density = 1.0e300;
    assert!(params.try_convert(&f64_to_f32).is_none());

    let mut params = example_parameters();
    params.domain_aabb = Some(AxisAlignedBoundingBox3d::new(
        [-1.0e300, 0.0, 0.0],
        [1.0, 1.0, 1.0],
    ));
    assert!(params.try_convert(&f64_to_f32).is_none());
}

#[test]
fn test_spatial_decomposition_try_convert() {
    let sd = SpatialDecompositionParameters::<f64> {
        subdivision_criterion: SubdivisionCriterion::MaxDepth(4),
        ghost_particle_safety_factor: None,
        enable_stitching: false,
    };
    let converted: SpatialDecompositionParameters<f32> = sd.try_convert(&f64_to_f32).unwrap();
    assert_eq!(
        converted.subdivision_criterion,
        SubdivisionCriterion::MaxDepth(4)
    );
    assert_eq!(converted.ghost_particle_safety_factor, None);
    assert!(!converted.enable_stitching);

    let sd_failing = SpatialDecompositionParameters::<f64> {
        ghost_particle_safety_factor: Some(-1.0e308),
        ..sd
    };
    assert!(sd_failing.try_convert(&f64_to_f32).is_none());
}

#[test]
fn test_aabb_try_convert() {
    let aabb = AxisAlignedBoundingBox3d::new([0.0f64, 1.0, 2.0], [3.0, 4.0, 5.0]);
    let converted: AxisAlignedBoundingBox3d<f32> = aabb.try_convert(&f64_to_f32).unwrap();
    assert_eq!(converted.min, [0.0f32, 1.0, 2.0]);
    assert_eq!(converted.max, [3.0f32, 4.0, 5.0]);
}

fn checks_all_true() -> ParameterChecks {
    ParameterChecks {
        particle_radius_is_positive: true,
        rest_density_is_positive: true,
        kernel_radius_is_positive: true,
        cube_size_is_positive: true,
        iso_surface_threshold_is_positive: true,
    }
}

#[test]
fn test_empty_input_is_degenerate() {
    // An empty particle set is rejected before any reconstruction work.
    assert_eq!(
        validate_input(0, &checks_all_true()),
        Err(ReconstructionError::DegenerateInput)
    );
    assert_eq!(validate_input(1, &checks_all_true()), Ok(()));
}

#[test]
fn test_out_of_range_parameter_is_rejected() {
    let checks = ParameterChecks {
        cube_size_is_positive: false,
        ..checks_all_true()
    };
    assert_eq!(
        validate_input(10, &checks),
        Err(ReconstructionError::InvalidParameter)
    );
    // A parameter violation is reported even when the input is also empty.
    assert_eq!(
        validate_input(0, &checks),
        Err(ReconstructionError::InvalidParameter)
    );
}
