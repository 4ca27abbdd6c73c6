use splashsurf_lib::mesh::AttributeData;
use splashsurf_lib::vtk_format::{
    DataArrayData, DataPiece, IoBufferData, PolyDataPieceData, UnstructuredGridPieceData, VtkFile,
    VtkLoadError, attribute_names, flatten_point_coords, particle_vertex_cells,
    particles_from_coords, triangles_from_cell_verts, triangles_to_cell_verts,
};

fn f32_to_f64(x: f32) -> Option<f64> {
    Some(x as f64)
}

fn identity_f64(x: f64) -> Option<f64> {
    Some(x)
}

fn grid_piece() -> UnstructuredGridPieceData<f64> {
    UnstructuredGridPieceData {
        points: vec![0.0, 0.0, 0.0, 1.0, 0.0, 0.0, 0.0, 1.0, 0.0],
        cell_verts: vec![0, 0, 1, 2],
        point_attributes: vec![
            DataArrayData {
                name: "density".to_string(),
                num_comp: 1,
                buffer: IoBufferData::U32(vec![1, 2, 3]),
            },
            DataArrayData {
                name: "velocity".to_string(),
                num_comp: 3,
                buffer: IoBufferData::Real(vec![0.0; 9]),
            },
        ],
    }
}

#[test]
fn test_particles_from_coords() {
    let coords: Vec<f32> = vec![1.0, 2.0, 3.0, 4.0, 5.0, 6.0];
    let particles = particles_from_coords(&coords, &f32_to_f64).unwrap();
    assert_eq!(particles, vec![[1.0, 2.0, 3.0], [4.0, 5.0, 6.0]]);
}

#[test]
fn test_particles_from_coords_invalid_length() {
    let coords: Vec<f32> = vec![1.0, 2.0, 3.0, 4.0];
    assert_eq!(
        particles_from_coords(&coords, &f32_to_f64),
        Err(VtkLoadError::InvalidCoordinateCount)
    );
}

#[test]
fn test_particles_from_coords_conversion_failure() {
    let coords: Vec<f64> = vec![1.0, 1.0e300, 0.0];
    let narrow = |x: f64| {
        let converted = x as f32;
        if converted.is_finite() {
            Some(converted)
        } else {
            None
        }
    };
    assert_eq!(
        particles_from_coords(&coords, &narrow),
        Err(VtkLoadError::NumericConversion)
    );
}

#[test]
fn test_triangles_from_cell_verts() {
    let cells: Vec<u32> = vec![0, 0, 1, 2, 0, 2, 1, 3];
    assert_eq!(
        triangles_from_cell_verts(&cells).unwrap(),
        vec![[0, 1, 2], [2, 1, 3]]
    );
    assert_eq!(
        triangles_from_cell_verts(&vec![0, 0, 1]),
        Err(VtkLoadError::InvalidCellLength)
    );
    assert_eq!(
        triangles_from_cell_verts(&vec![3, 0, 1, 2]),
        Err(VtkLoadError::NonTriangleCell)
    );
}

#[test]
fn test_attribute_names() {
    let names = attribute_names(&grid_piece().point_attributes);
    assert_eq!(names, vec!["density".to_string(), "velocity".to_string()]);
}

#[test]
fn test_into_pieces_and_attribute_names() {
    let file = VtkFile::from_pieces(vec![DataPiece::UnstructuredGrid(grid_piece())]);
    let pieces = file.into_pieces();
    assert_eq!(pieces.len(), 1);
    assert_eq!(
        pieces[0].point_attribute_names(),
        vec!["density".to_string(), "velocity".to_string()]
    );
}

#[test]
fn test_load_as_particles() {
    let piece = DataPiece::UnstructuredGrid(grid_piece());
    let particles = piece.load_as_particles(&identity_f64).unwrap();
    assert_eq!(
        particles,
        vec![[0.0, 0.0, 0.0], [1.0, 0.0, 0.0], [0.0, 1.0, 0.0]]
    );
}

#[test]
fn test_load_as_surface_mesh() {
    let piece = DataPiece::UnstructuredGrid(grid_piece());
    let mesh = piece.load_as_surface_mesh(&identity_f64).unwrap();
    assert_eq!(
        mesh.mesh.vertices,
        vec![[0.0, 0.0, 0.0], [1.0, 0.0, 0.0], [0.0, 1.0, 0.0]]
    );
    assert_eq!(mesh.mesh.triangles, vec![[0, 1, 2]]);
    assert!(mesh.point_attributes.is_empty());
}

#[test]
fn test_load_as_surface_mesh_unsupported_piece() {
    let piece = DataPiece::PolyData(PolyDataPieceData::<f64> {
        points: vec![0.0, 0.0, 0.0],
        point_attributes: vec![],
    });
    assert_eq!(
        piece.load_as_surface_mesh(&identity_f64).unwrap_err(),
        VtkLoadError::UnsupportedPieceType
    );
}

#[test]
fn test_load_point_attributes() {
    let piece = DataPiece::UnstructuredGrid(grid_piece());
    let names = vec!["velocity".to_string(), "density".to_string()];
    let attributes = piece
        .load_point_attributes(&names, &|v: u32| v as f64, &identity_f64)
        .unwrap();
    assert_eq!(attributes.len(), 2);
    assert_eq!(attributes[0].name, "velocity");
    assert_eq!(
        attributes[0].data,
        AttributeData::Vector3Real(vec![[0.0; 3]; 3])
    );
    assert_eq!(attributes[1].name, "density");
    assert_eq!(
        attributes[1].data,
        AttributeData::ScalarReal(vec![1.0, 2.0, 3.0])
    );
}

#[test]
fn test_load_point_attributes_not_found() {
    let piece = DataPiece::UnstructuredGrid(grid_piece());
    let names = vec!["missing".to_string()];
    assert_eq!(
        piece
            .load_point_attributes(&names, &|v: u32| v as f64, &identity_f64)
            .unwrap_err(),
        VtkLoadError::AttributeNotFound
    );
}

#[test]
fn test_load_point_attributes_unsupported_shape() {
    let mut data = grid_piece();
    data.point_attributes.push(DataArrayData {
        name: "tensor".to_string(),
        num_comp: 9,
        buffer: IoBufferData::Real(vec![0.0; 27]),
    });
    let piece = DataPiece::UnstructuredGrid(data);
    let names = vec!["tensor".to_string()];
    assert_eq!(
        piece
            .load_point_attributes(&names, &|v: u32| v as f64, &identity_f64)
            .unwrap_err(),
        VtkLoadError::UnsupportedAttribute
    );
}

#[test]
fn test_flatten_point_coords_roundtrip() {
    let points = vec![[1.0, 2.0, 3.0], [4.0, 5.0, 6.0]];
    let coords = flatten_point_coords(&points);
    assert_eq!(coords, vec![1.0, 2.0, 3.0, 4.0, 5.0, 6.0]);
    assert_eq!(particles_from_coords(&coords, &identity_f64).unwrap(), points);
}

#[test]
fn test_triangles_to_cell_verts_roundtrip() {
    let triangles = vec![[0usize, 1, 2], [2, 1, 3]];
    let cell_verts = triangles_to_cell_verts(&triangles).unwrap();
    assert_eq!(cell_verts, vec![3, 0, 1, 2, 3, 2, 1, 3]);
}

#[test]
fn test_particle_vertex_cells() {
    assert_eq!(particle_vertex_cells(3).unwrap(), vec![1, 0, 1, 1, 1, 2]);
    assert_eq!(particle_vertex_cells(0).unwrap(), Vec::<u32>::new());
}
