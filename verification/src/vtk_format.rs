//! In-memory model of the data pieces of a VTK file.
//!
//! File reading and writing is the caller's concern: the caller parses a
//! file, flattens grouped attribute fields into plain data arrays, and hands
//! the buffers over as plain values of this model. The logic that turns the
//! buffers into particles, surface meshes and mesh attributes lives here.
//! Scalar conversions between numeric kinds run through caller-supplied
//! conversion functions.

use vstd::prelude::*;
use crate::aabb::{scalar_converts_to, scalar_conversion_fails};
use crate::mesh::{AttributeData, MeshAttribute, MeshWithData, TriMesh3d};

verus! {

/// Error returned when a VTK data piece cannot be read as the requested
/// kind of data.
#[derive(Clone, Copy, Debug, PartialEq, Eq, Structural)]
pub enum VtkLoadError {
    /// The point coordinate buffer's length is not divisible by three.
    InvalidCoordinateCount,
    /// A coordinate lies outside the range of the requested scalar kind.
    NumericConversion,
    /// The cell vertex list's length is not divisible by four.
    InvalidCellLength,
    /// A cell of the piece is not a plain triangle.
    NonTriangleCell,
    /// No attribute of a requested name exists in the piece.
    AttributeNotFound,
    /// An attribute's buffer kind or component count is not supported.
    UnsupportedAttribute,
    /// The piece kind cannot hold the requested data.
    UnsupportedPieceType,
}

/// Values of one attribute data array, as the file stores them.
#[derive(Clone, Debug, PartialEq)]
pub enum IoBufferData<R> {
    /// Unsigned 32-bit integers.
    U32(Vec<u32>),
    /// Scalars of the file's floating-point kind, already carried over into
    /// the scalar kind `R`.
    Real(Vec<R>),
    /// A buffer kind the reconstruction does not read.
    Unsupported,
}

/// One named attribute data array of a piece.
#[derive(Clone, Debug, PartialEq)]
pub struct DataArrayData<R> {
    /// Name of the data array.
    pub name: String,
    /// Number of components per element (1 for scalars, 3 for vectors).
    pub num_comp: usize,
    /// The array's values.
    pub buffer: IoBufferData<R>,
}

/// Point and cell data of an unstructured grid piece.
#[derive(Clone, Debug, PartialEq)]
pub struct UnstructuredGridPieceData<R> {
    /// Flat point coordinates, three consecutive values per point.
    pub points: Vec<R>,
    /// Cell vertex list: four entries per cell, a leading marker entry and
    /// the three vertex indices of a triangle.
    pub cell_verts: Vec<u32>,
    /// The point attributes of the piece, grouped fields flattened.
    pub point_attributes: Vec<DataArrayData<R>>,
}

/// Point data of a poly-data piece.
#[derive(Clone, Debug, PartialEq)]
pub struct PolyDataPieceData<R> {
    /// Flat point coordinates, three consecutive values per point.
    pub points: Vec<R>,
    /// The point attributes of the piece, grouped fields flattened.
    pub point_attributes: Vec<DataArrayData<R>>,
}

/// One data piece of a VTK file.
#[derive(Clone, Debug, PartialEq)]
pub enum DataPiece<R> {
    /// An unstructured grid piece.
    UnstructuredGrid(UnstructuredGridPieceData<R>),
    /// A poly-data piece.
    PolyData(PolyDataPieceData<R>),
}

/// The loaded data pieces of one VTK file.
#[derive(Clone, Debug, PartialEq)]
pub struct VtkFile<R> {
    pieces: Vec<DataPiece<R>>,
}

impl<R: Copy> VtkFile<R> {
    /// The pieces the file holds.
    pub closed spec fn pieces_spec(self) -> Seq<DataPiece<R>> {
        self.pieces@
    }

    /// Gathers the pieces loaded from one file.
    pub fn from_pieces(pieces: Vec<DataPiece<R>>) -> (file: Self)
        ensures
            file.pieces_spec() == pieces@,
    {
        Self { pieces }
    }

    /// Returns all pieces that could be loaded from the VTK file.
    pub fn into_pieces(self) -> (pieces: Vec<DataPiece<R>>)
        ensures
            pieces@ == self.pieces_spec(),
    {
        self.pieces
    }
}

/// The conversion `convert` reported failure on some element of the
/// coordinate buffer.
pub open spec fn some_coord_conversion_fails<R, T, F: Fn(R) -> Option<T>>(
    convert: F,
    coords: Seq<R>,
) -> bool {
    exists|i: int| 0 <= i < coords.len() && scalar_conversion_fails(convert, #[trigger] coords[i])
}

/// Collects the names of all data arrays in the given slice, in order.
pub fn attribute_names<R: Copy>(attributes: &Vec<DataArrayData<R>>) -> (names: Vec<String>)
    ensures
        names@.len() == attributes@.len(),
        forall|i: int| 0 <= i < names@.len() ==> (#[trigger] names@[i])@ == attributes@[i].name@,
{
    let mut names: Vec<String> = Vec::new();
    let mut a: usize = 0;
    while a < attributes.len()
        invariant
            a <= attributes@.len(),
            names@.len() == a,
            forall|i: int| 0 <= i < a ==> (#[trigger] names@[i])@ == attributes@[i].name@,
        decreases attributes@.len() - a,
    {
        names.push(attributes[a].name.clone());
        a += 1;
    }
    names
}

/// Tries to convert a vector of consecutive coordinate triplets into a
/// vector of 3D points, converting every scalar with the given conversion.
pub fn particles_from_coords<RealOut: Copy, RealIn: Copy, F: Fn(RealIn) -> Option<RealOut>>(
    coords: &Vec<RealIn>,
    convert: &F,
) -> (result: Result<Vec<[RealOut; 3]>, VtkLoadError>)
    requires
        forall|x: RealIn| call_requires(*convert, (x,)),
    ensures
        match result {
            Ok(positions) => coords@.len() % 3 == 0 && positions@.len() == coords@.len() / 3
                && forall|i: int, c: int|
                0 <= i < positions@.len() && 0 <= c < 3 ==> scalar_converts_to(
                    *convert,
                    coords@[3 * i + c],
                    #[trigger] positions@[i][c],
                ),
            Err(VtkLoadError::InvalidCoordinateCount) => coords@.len() % 3 != 0,
            Err(VtkLoadError::NumericConversion) => coords@.len() % 3 == 0
                && some_coord_conversion_fails(*convert, coords@),
            Err(_) => false,
        },
{
    if coords.len() % 3 != 0 {
        return Err(VtkLoadError::InvalidCoordinateCount);
    }
    let num_points = coords.len() / 3;
    let coords_len = coords.len();
    proof {
        vstd::arithmetic::div_mod::lemma_fundamental_div_mod(coords@.len() as int, 3);
    }
    let mut positions: Vec<[RealOut; 3]> = Vec::new();
    let mut i: usize = 0;
    while i < num_points
        invariant
            num_points == coords@.len() / 3,
            coords@.len() == 3 * num_points,
            coords@.len() % 3 == 0,
            coords@.len() == coords_len,
            i <= num_points,
            positions@.len() == i,
            forall|x: RealIn| call_requires(*convert, (x,)),
            forall|p: int, c: int|
                0 <= p < i && 0 <= c < 3 ==> scalar_converts_to(
                    *convert,
                    coords@[3 * p + c],
                    #[trigger] positions@[p][c],
                ),
        decreases num_points - i,
    {
        let x = match convert(coords[3 * i]) {
            Some(v) => v,
            None => {
                proof {
                    assert(scalar_conversion_fails(*convert, coords@[3 * i as int]));
                    assert(some_coord_conversion_fails(*convert, coords@));
                }
                return Err(VtkLoadError::NumericConversion);
            },
        };
        let y = match convert(coords[3 * i + 1]) {
            Some(v) => v,
            None => {
                proof {
                    assert(scalar_conversion_fails(*convert, coords@[3 * i as int + 1]));
                    assert(some_coord_conversion_fails(*convert, coords@));
                }
                return Err(VtkLoadError::NumericConversion);
            },
        };
        let z = match convert(coords[3 * i + 2]) {
            Some(v) => v,
            None => {
                proof {
                    assert(scalar_conversion_fails(*convert, coords@[3 * i as int + 2]));
                    assert(some_coord_conversion_fails(*convert, coords@));
                }
                return Err(VtkLoadError::NumericConversion);
            },
        };
        positions.push([x, y, z]);
        i += 1;
    }
    Ok(positions)
}

/// Cell `u` of the cell vertex list is a plain triangle and `triangles[u]`
/// holds its three vertex indices.
pub open spec fn cell_read_as_triangle(cell_verts: Seq<u32>, triangles: Seq<[usize; 3]>, u: int) -> bool {
    &&& cell_verts[4 * u] == 0
    &&& triangles[u][0] == cell_verts[4 * u + 1] as usize
    &&& triangles[u][1] == cell_verts[4 * u + 2] as usize
    &&& triangles[u][2] == cell_verts[4 * u + 3] as usize
}

/// Tries to read the given cell vertex list as a list of plain triangles.
///
/// Every cell takes four entries: a leading marker entry, which must be
/// zero for a plain triangle, and the three vertex indices of the triangle.
pub fn triangles_from_cell_verts(cell_verts: &Vec<u32>) -> (result: Result<
    Vec<[usize; 3]>,
    VtkLoadError,
>)
    ensures
        match result {
            Ok(triangles) => cell_verts@.len() % 4 == 0 && triangles@.len() == cell_verts@.len()
                / 4 && forall|t: int|
                0 <= t < triangles@.len() ==> #[trigger] cell_read_as_triangle(
                    cell_verts@,
                    triangles@,
                    t,
                ),
            Err(VtkLoadError::InvalidCellLength) => cell_verts@.len() % 4 != 0,
            Err(VtkLoadError::NonTriangleCell) => cell_verts@.len() % 4 == 0 && exists|p: int|
                0 <= p < cell_verts@.len() && p % 4 == 0 && #[trigger] cell_verts@[p] != 0,
            Err(_) => false,
        },
{
    if cell_verts.len() % 4 != 0 {
        return Err(VtkLoadError::InvalidCellLength);
    }
    let num_cells = cell_verts.len() / 4;
    let cell_verts_len = cell_verts.len();
    proof {
        vstd::arithmetic::div_mod::lemma_fundamental_div_mod(cell_verts@.len() as int, 4);
    }
    let mut triangles: Vec<[usize; 3]> = Vec::new();
    let mut t: usize = 0;
    while t < num_cells
        invariant
            num_cells == cell_verts@.len() / 4,
            cell_verts@.len() == 4 * num_cells,
            cell_verts@.len() % 4 == 0,
            cell_verts@.len() == cell_verts_len,
            t <= num_cells,
            triangles@.len() == t,
            forall|u: int|
                0 <= u < t ==> #[trigger] cell_read_as_triangle(cell_verts@, triangles@, u),
        decreases num_cells - t,
    {
        if cell_verts[4 * t] != 0 {
            proof {
                let p = 4 * (t as int);
                assert(0 <= p < cell_verts@.len() && p % 4 == 0 && cell_verts@[p] != 0);
            }
            return Err(VtkLoadError::NonTriangleCell);
        }
        let triangle: [usize; 3] = [
            cell_verts[4 * t + 1] as usize,
            cell_verts[4 * t + 2] as usize,
            cell_verts[4 * t + 3] as usize,
        ];
        let ghost old_triangles = triangles@;
        triangles.push(triangle);
        proof {
            assert forall|u: int|
                0 <= u < t + 1 implies #[trigger] cell_read_as_triangle(
                cell_verts@,
                triangles@,
                u,
            ) by {
                if u == t as int {
                    assert(triangles@[u] == triangle);
                } else {
                    assert(triangles@[u] == old_triangles[u]);
                    assert(cell_read_as_triangle(cell_verts@, old_triangles, u));
                }
            }
        }
        t += 1;
    }
    Ok(triangles)
}


/// No data array of the given name exists among the attributes.
pub open spec fn attribute_missing<R>(arrays: Seq<DataArrayData<R>>, name: Seq<char>) -> bool {
    forall|j: int| 0 <= j < arrays.len() ==> (#[trigger] arrays[j]).name@ != name
}

/// The data array at position `ai` is the first one of the given name.
pub open spec fn first_array_of_name<R>(
    arrays: Seq<DataArrayData<R>>,
    name: Seq<char>,
    ai: int,
) -> bool {
    &&& 0 <= ai < arrays.len()
    &&& arrays[ai].name@ == name
    &&& forall|j: int| 0 <= j < ai ==> (#[trigger] arrays[j]).name@ != name
}

/// The data array has a shape that can be read as a mesh attribute: one
/// unsigned-integer component per point, or three real components.
pub open spec fn attribute_shape_supported<R>(array: DataArrayData<R>) -> bool {
    ||| (array.num_comp == 1 && array.buffer is U32)
    ||| (array.num_comp == 3 && array.buffer is Real)
}

/// The mesh attribute carries the data array's name and its values taken
/// through the respective conversion: scalars through the integer
/// conversion, coordinate triplets through the scalar conversion.
pub open spec fn attribute_converted<R, T, FU: Fn(u32) -> T, FR: Fn(R) -> Option<T>>(
    convert_u32: FU,
    convert: FR,
    array: DataArrayData<R>,
    converted: MeshAttribute<T>,
) -> bool {
    &&& converted.name@ == array.name@
    &&& if array.num_comp == 1 {
        array.buffer matches IoBufferData::U32(values) && converted.data matches
            AttributeData::ScalarReal(scalars) && scalars@.len() == values@.len() && forall|i: int|
            0 <= i < values@.len() ==> call_ensures(
                convert_u32,
                (values@[i],),
                #[trigger] scalars@[i],
            )
    } else if array.num_comp == 3 {
        array.buffer matches IoBufferData::Real(coords) && converted.data matches
            AttributeData::Vector3Real(vectors) && coords@.len() % 3 == 0 && vectors@.len()
            == coords@.len() / 3 && forall|i: int, c: int|
            0 <= i < vectors@.len() && 0 <= c < 3 ==> scalar_converts_to(
                convert,
                coords@[3 * i + c],
                #[trigger] vectors@[i][c],
            )
    } else {
        false
    }
}

/// The mesh attribute was loaded for the given name: it carries the values
/// of the first data array of that name.
pub open spec fn attribute_loaded<R, T, FU: Fn(u32) -> T, FR: Fn(R) -> Option<T>>(
    arrays: Seq<DataArrayData<R>>,
    name: Seq<char>,
    convert_u32: FU,
    convert: FR,
    loaded: MeshAttribute<T>,
) -> bool {
    exists|ai: int|
        #[trigger] first_array_of_name(arrays, name, ai) && attribute_converted(
            convert_u32,
            convert,
            arrays[ai],
            loaded,
        )
}

/// Position of the first data array of the given name, searched in order.
fn find_attribute_index<R: Copy>(arrays: &Vec<DataArrayData<R>>, name: &String) -> (result: Option<
    usize,
>)
    ensures
        match result {
            Some(ai) => first_array_of_name(arrays@, name@, ai as int),
            None => attribute_missing(arrays@, name@),
        },
{
    let mut a: usize = 0;
    while a < arrays.len()
        invariant
            a <= arrays@.len(),
            forall|j: int| 0 <= j < a ==> (#[trigger] arrays@[j]).name@ != name@,
        decreases arrays@.len() - a,
    {
        if arrays[a].name == *name {
            return Some(a);
        }
        a += 1;
    }
    None
}

/// Converts one data array to a mesh attribute under the two conversions.
fn convert_attribute<R: Copy, T: Copy, FU: Fn(u32) -> T, FR: Fn(R) -> Option<T>>(
    array: &DataArrayData<R>,
    convert_u32: &FU,
    convert: &FR,
) -> (result: Result<MeshAttribute<T>, VtkLoadError>)
    requires
        forall|x: u32| call_requires(*convert_u32, (x,)),
        forall|x: R| call_requires(*convert, (x,)),
    ensures
        match result {
            Ok(attribute) => attribute_converted(*convert_u32, *convert, *array, attribute),
            Err(VtkLoadError::UnsupportedAttribute) => !attribute_shape_supported(*array),
            Err(VtkLoadError::InvalidCoordinateCount) => array.num_comp == 3 && (array.buffer
                matches IoBufferData::Real(coords) && coords@.len() % 3 != 0),
            Err(VtkLoadError::NumericConversion) => array.num_comp == 3 && (array.buffer matches
                IoBufferData::Real(coords) && coords@.len() % 3 == 0 && some_coord_conversion_fails(
                *convert,
                coords@,
            )),
            Err(_) => false,
        },
{
    if array.num_comp == 1 {
        match &array.buffer {
            IoBufferData::U32(values) => {
                let mut scalars: Vec<T> = Vec::new();
                let mut i: usize = 0;
                while i < values.len()
                    invariant
                        i <= values@.len(),
                        scalars@.len() == i,
                        forall|x: u32| call_requires(*convert_u32, (x,)),
                        forall|j: int|
                            0 <= j < i ==> call_ensures(
                                *convert_u32,
                                (values@[j],),
                                #[trigger] scalars@[j],
                            ),
                    decreases values@.len() - i,
                {
                    scalars.push(convert_u32(values[i]));
                    i += 1;
                }
                Ok(MeshAttribute { name: array.name.clone(), data: AttributeData::ScalarReal(scalars) })
            },
            _ => Err(VtkLoadError::UnsupportedAttribute),
        }
    } else if array.num_comp == 3 {
        match &array.buffer {
            IoBufferData::Real(coords) => match particles_from_coords(coords, convert) {
                Ok(vectors) => Ok(
                    MeshAttribute {
                        name: array.name.clone(),
                        data: AttributeData::Vector3Real(vectors),
                    },
                ),
                Err(e) => Err(e),
            },
            _ => Err(VtkLoadError::UnsupportedAttribute),
        }
    } else {
        Err(VtkLoadError::UnsupportedAttribute)
    }
}

impl<R: Copy> DataPiece<R> {
    /// The point attributes of this data piece.
    pub open spec fn point_attributes_spec(self) -> Seq<DataArrayData<R>> {
        match self {
            DataPiece::UnstructuredGrid(p) => p.point_attributes@,
            DataPiece::PolyData(p) => p.point_attributes@,
        }
    }

    /// The flat point coordinates of this data piece.
    pub open spec fn points_spec(self) -> Seq<R> {
        match self {
            DataPiece::UnstructuredGrid(p) => p.points@,
            DataPiece::PolyData(p) => p.points@,
        }
    }

    /// Returns a reference to all point attributes of this data piece.
    pub fn point_attributes(&self) -> (attributes: &Vec<DataArrayData<R>>)
        ensures
            attributes@ == self.point_attributes_spec(),
    {
        match self {
            DataPiece::UnstructuredGrid(p) => &p.point_attributes,
            DataPiece::PolyData(p) => &p.point_attributes,
        }
    }

    /// Returns the names of all point attributes of this data piece.
    pub fn point_attribute_names(&self) -> (names: Vec<String>)
        ensures
            names@.len() == self.point_attributes_spec().len(),
            forall|i: int|
                0 <= i < names@.len() ==> (#[trigger] names@[i])@
                    == self.point_attributes_spec()[i].name@,
    {
        attribute_names(self.point_attributes())
    }

    /// Tries to load the points of this piece as a set of particles of the
    /// scalar kind `T`.
    pub fn load_as_particles<T: Copy, F: Fn(R) -> Option<T>>(&self, convert: &F) -> (result:
        Result<Vec<[T; 3]>, VtkLoadError>)
        requires
            forall|x: R| call_requires(*convert, (x,)),
        ensures
            match result {
                Ok(positions) => self.points_spec().len() % 3 == 0 && positions@.len()
                    == self.points_spec().len() / 3 && forall|i: int, c: int|
                    0 <= i < positions@.len() && 0 <= c < 3 ==> scalar_converts_to(
                        *convert,
                        self.points_spec()[3 * i + c],
                        #[trigger] positions@[i][c],
                    ),
                Err(VtkLoadError::InvalidCoordinateCount) => self.points_spec().len() % 3 != 0,
                Err(VtkLoadError::NumericConversion) => self.points_spec().len() % 3 == 0
                    && some_coord_conversion_fails(*convert, self.points_spec()),
                Err(_) => false,
            },
    {
        let points = match self {
            DataPiece::UnstructuredGrid(p) => &p.points,
            DataPiece::PolyData(p) => &p.points,
        };
        particles_from_coords(points, convert)
    }

    /// Tries to load a surface mesh from this piece. Only unstructured grid
    /// pieces can hold one.
    pub fn load_as_surface_mesh<T: Copy, F: Fn(R) -> Option<T>>(&self, convert: &F) -> (result:
        Result<MeshWithData<T>, VtkLoadError>)
        requires
            forall|x: R| call_requires(*convert, (x,)),
        ensures
            match result {
                Ok(mesh) => self matches DataPiece::UnstructuredGrid(p) && {
                    &&& p.points@.len() % 3 == 0
                    &&& mesh.mesh.vertices@.len() == p.points@.len() / 3
                    &&& forall|i: int, c: int|
                        0 <= i < mesh.mesh.vertices@.len() && 0 <= c < 3 ==> scalar_converts_to(
                            *convert,
                            p.points@[3 * i + c],
                            #[trigger] mesh.mesh.vertices@[i][c],
                        )
                    &&& p.cell_verts@.len() % 4 == 0
                    &&& mesh.mesh.triangles@.len() == p.cell_verts@.len() / 4
                    &&& forall|t: int|
                        0 <= t < mesh.mesh.triangles@.len() ==> #[trigger] cell_read_as_triangle(
                            p.cell_verts@,
                            mesh.mesh.triangles@,
                            t,
                        )
                    &&& mesh.point_attributes@.len() == 0
                },
                Err(VtkLoadError::InvalidCoordinateCount) => self matches DataPiece::UnstructuredGrid(
                    p,
                ) && p.points@.len() % 3 != 0,
                Err(VtkLoadError::NumericConversion) => self matches DataPiece::UnstructuredGrid(p)
                    && p.points@.len() % 3 == 0 && some_coord_conversion_fails(
                    *convert,
                    p.points@,
                ),
                Err(VtkLoadError::InvalidCellLength) => self matches DataPiece::UnstructuredGrid(p)
                    && p.cell_verts@.len() % 4 != 0,
                Err(VtkLoadError::NonTriangleCell) => self matches DataPiece::UnstructuredGrid(p)
                    && p.cell_verts@.len() % 4 == 0 && exists|q: int|
                    0 <= q < p.cell_verts@.len() && q % 4 == 0 && #[trigger] p.cell_verts@[q] != 0,
                Err(VtkLoadError::UnsupportedPieceType) => self matches DataPiece::PolyData(_),
                Err(_) => false,
            },
    {
        match self {
            DataPiece::UnstructuredGrid(p) => {
                let vertices = match particles_from_coords(&p.points, convert) {
                    Ok(vertices) => vertices,
                    Err(e) => {
                        return Err(e);
                    },
                };
                let triangles = match triangles_from_cell_verts(&p.cell_verts) {
                    Ok(triangles) => triangles,
                    Err(e) => {
                        return Err(e);
                    },
                };
                Ok(MeshWithData::new(TriMesh3d { vertices, triangles }))
            },
            DataPiece::PolyData(_) => Err(VtkLoadError::UnsupportedPieceType),
        }
    }

    /// Tries to load attributes with the given names from the data piece.
    ///
    /// For every requested name, the first data array of that name is taken
    /// and converted: a one-component unsigned-integer array becomes a
    /// scalar attribute under `convert_u32`, a three-component real array
    /// becomes a vector attribute under `convert`. An error names the first
    /// request that failed: a missing name, an unsupported array shape, or
    /// a failing coordinate conversion.
    pub fn load_point_attributes<T: Copy, FU: Fn(u32) -> T, FR: Fn(R) -> Option<T>>(
        &self,
        names: &Vec<String>,
        convert_u32: &FU,
        convert: &FR,
    ) -> (result: Result<Vec<MeshAttribute<T>>, VtkLoadError>)
        requires
            forall|x: u32| call_requires(*convert_u32, (x,)),
            forall|x: R| call_requires(*convert, (x,)),
        ensures
            match result {
                Ok(attributes) => attributes@.len() == names@.len() && forall|i: int|
                    0 <= i < names@.len() ==> attribute_loaded(
                        self.point_attributes_spec(),
                        (#[trigger] names@[i])@,
                        *convert_u32,
                        *convert,
                        attributes@[i],
                    ),
                Err(VtkLoadError::AttributeNotFound) => exists|i: int|
                    0 <= i < names@.len() && attribute_missing(
                        self.point_attributes_spec(),
                        (#[trigger] names@[i])@,
                    ),
                Err(VtkLoadError::UnsupportedAttribute) => exists|i: int, ai: int|
                    0 <= i < names@.len() && #[trigger] first_array_of_name(
                        self.point_attributes_spec(),
                        names@[i]@,
                        ai,
                    ) && !attribute_shape_supported(self.point_attributes_spec()[ai]),
                Err(VtkLoadError::InvalidCoordinateCount) => exists|i: int, ai: int|
                    0 <= i < names@.len() && #[trigger] first_array_of_name(
                        self.point_attributes_spec(),
                        names@[i]@,
                        ai,
                    ) && (self.point_attributes_spec()[ai].buffer matches IoBufferData::Real(coords)
                        && coords@.len() % 3 != 0),
                Err(VtkLoadError::NumericConversion) => exists|i: int, ai: int|
                    0 <= i < names@.len() && #[trigger] first_array_of_name(
                        self.point_attributes_spec(),
                        names@[i]@,
                        ai,
                    ) && (self.point_attributes_spec()[ai].buffer matches IoBufferData::Real(coords)
                        && some_coord_conversion_fails(*convert, coords@)),
                Err(_) => false,
            },
    {
        let arrays = self.point_attributes();
        let mut attributes: Vec<MeshAttribute<T>> = Vec::new();
        let mut n: usize = 0;
        while n < names.len()
            invariant
                n <= names@.len(),
                attributes@.len() == n,
                arrays@ == self.point_attributes_spec(),
                forall|x: u32| call_requires(*convert_u32, (x,)),
                forall|x: R| call_requires(*convert, (x,)),
                forall|i: int|
                    0 <= i < n ==> attribute_loaded(
                        self.point_attributes_spec(),
                        (#[trigger] names@[i])@,
                        *convert_u32,
                        *convert,
                        attributes@[i],
                    ),
            decreases names@.len() - n,
        {
            let ai = match find_attribute_index(arrays, &names[n]) {
                Some(ai) => ai,
                None => {
                    return Err(VtkLoadError::AttributeNotFound);
                },
            };
            let attribute = match convert_attribute(&arrays[ai], convert_u32, convert) {
                Ok(attribute) => attribute,
                Err(e) => {
                    proof {
                        assert(first_array_of_name(
                            self.point_attributes_spec(),
                            names@[n as int]@,
                            ai as int,
                        ));
                    }
                    return Err(e);
                },
            };
            let ghost attributes_before = attributes@;
            attributes.push(attribute);
            proof {
                assert(attribute_loaded(
                    self.point_attributes_spec(),
                    names@[n as int]@,
                    *convert_u32,
                    *convert,
                    attribute,
                ));
                assert forall|i: int|
                    0 <= i < n + 1 implies attribute_loaded(
                    self.point_attributes_spec(),
                    (#[trigger] names@[i])@,
                    *convert_u32,
                    *convert,
                    attributes@[i],
                ) by {
                    if i < n {
                        assert(attributes@[i] == attributes_before[i]);
                    } else {
                        assert(attributes@[i] == attribute);
                    }
                }
            }
            n += 1;
        }
        Ok(attributes)
    }
}


/// The coordinate buffer holds the given points flattened, three
/// consecutive values per point.
pub open spec fn coords_flattened<R>(points: Seq<[R; 3]>, coords: Seq<R>) -> bool {
    &&& coords.len() == 3 * points.len()
    &&& forall|i: int|
        0 <= i < points.len() ==> coords[3 * i] == (#[trigger] points[i])[0] && coords[3 * i + 1]
            == points[i][1] && coords[3 * i + 2] == points[i][2]
}

/// Flattens 3D points into one coordinate buffer, three values per point:
/// the inverse of [`particles_from_coords`] under the identity conversion.
pub fn flatten_point_coords<R: Copy>(points: &Vec<[R; 3]>) -> (coords: Vec<R>)
    ensures
        coords_flattened(points@, coords@),
{
    let mut coords: Vec<R> = Vec::new();
    let mut i: usize = 0;
    while i < points.len()
        invariant
            i <= points@.len(),
            coords@.len() == 3 * i,
            forall|p: int|
                0 <= p < i ==> coords@[3 * p] == (#[trigger] points@[p])[0] && coords@[3 * p + 1]
                    == points@[p][1] && coords@[3 * p + 2] == points@[p][2],
        decreases points@.len() - i,
    {
        let point = points[i];
        coords.push(point[0]);
        coords.push(point[1]);
        coords.push(point[2]);
        i += 1;
    }
    coords
}

/// Cell `u` of the cell vertex list declares triangle `u`: a leading corner
/// count of three, then the triangle's three vertex indices.
pub open spec fn triangle_written_to_cells(
    triangles: Seq<[usize; 3]>,
    cell_verts: Seq<u32>,
    u: int,
) -> bool {
    &&& cell_verts[4 * u] == 3
    &&& cell_verts[4 * u + 1] == triangles[u][0] as u32
    &&& cell_verts[4 * u + 2] == triangles[u][1] as u32
    &&& cell_verts[4 * u + 3] == triangles[u][2] as u32
}

/// The cell vertex list holds the given triangles in legacy form: four
/// entries per triangle, a leading corner count of three and the three
/// vertex indices.
pub open spec fn triangle_cell_verts(triangles: Seq<[usize; 3]>, cell_verts: Seq<u32>) -> bool {
    &&& cell_verts.len() == 4 * triangles.len()
    &&& forall|t: int|
        0 <= t < triangles.len() ==> #[trigger] triangle_written_to_cells(triangles, cell_verts, t)
}

/// Builds the legacy cell vertex list of the given triangles; `None` where
/// a vertex index does not fit the file's 32-bit index kind.
pub fn triangles_to_cell_verts(triangles: &Vec<[usize; 3]>) -> (result: Option<Vec<u32>>)
    ensures
        match result {
            Some(cell_verts) => triangle_cell_verts(triangles@, cell_verts@),
            None => exists|t: int|
                0 <= t < triangles@.len() && ((#[trigger] triangles@[t])[0] > u32::MAX
                    || triangles@[t][1] > u32::MAX || triangles@[t][2] > u32::MAX),
        },
{
    let mut cell_verts: Vec<u32> = Vec::new();
    let mut t: usize = 0;
    while t < triangles.len()
        invariant
            t <= triangles@.len(),
            cell_verts@.len() == 4 * t,
            forall|u: int|
                0 <= u < t ==> #[trigger] triangle_written_to_cells(triangles@, cell_verts@, u),
        decreases triangles@.len() - t,
    {
        let triangle = triangles[t];
        if triangle[0] > u32::MAX as usize || triangle[1] > u32::MAX as usize || triangle[2]
            > u32::MAX as usize {
            return None;
        }
        let ghost before = cell_verts@;
        cell_verts.push(3);
        cell_verts.push(triangle[0] as u32);
        cell_verts.push(triangle[1] as u32);
        cell_verts.push(triangle[2] as u32);
        proof {
            assert forall|j: int| 0 <= j < before.len() implies #[trigger] cell_verts@[j]
                == before[j] by {}
            assert(cell_verts@[before.len() as int] == 3u32);
            assert(cell_verts@[before.len() as int + 1] == triangle[0] as u32);
            assert(cell_verts@[before.len() as int + 2] == triangle[1] as u32);
            assert(cell_verts@[before.len() as int + 3] == triangle[2] as u32);
            assert forall|u: int|
                0 <= u < t + 1 implies #[trigger] triangle_written_to_cells(
                triangles@,
                cell_verts@,
                u,
            ) by {
                if u < t {
                    assert(triangle_written_to_cells(triangles@, before, u));
                    assert(0 <= 4 * u && 4 * u + 3 < before.len());
                    assert(cell_verts@[4 * u] == before[4 * u]);
                    assert(cell_verts@[4 * u + 1] == before[4 * u + 1]);
                    assert(cell_verts@[4 * u + 2] == before[4 * u + 2]);
                    assert(cell_verts@[4 * u + 3] == before[4 * u + 3]);
                } else {
                    assert(u == t as int && before.len() == 4 * u);
                    assert(triangles@[u] == triangle);
                }
            }
        }
        t += 1;
    }
    Some(cell_verts)
}

/// Builds the legacy cell vertex list declaring one vertex cell per
/// particle: pairs of the corner count one and the particle's own index.
/// `None` where the particle count does not fit the file's 32-bit index
/// kind.
pub fn particle_vertex_cells(n_particles: usize) -> (result: Option<Vec<u32>>)
    ensures
        match result {
            Some(cell_verts) => cell_verts@.len() == 2 * n_particles && forall|i: int|
                0 <= i < n_particles ==> #[trigger] cell_verts@[2 * i] == 1 && cell_verts@[2 * i
                    + 1] == i,
            None => n_particles > u32::MAX,
        },
{
    if n_particles > u32::MAX as usize {
        return None;
    }
    let mut cell_verts: Vec<u32> = Vec::new();
    let mut i: usize = 0;
    while i < n_particles
        invariant
            n_particles <= u32::MAX,
            i <= n_particles,
            cell_verts@.len() == 2 * i,
            forall|p: int|
                0 <= p < i ==> #[trigger] cell_verts@[2 * p] == 1 && cell_verts@[2 * p + 1] == p,
        decreases n_particles - i,
    {
        let ghost before = cell_verts@;
        cell_verts.push(1);
        cell_verts.push(i as u32);
        proof {
            assert forall|j: int| 0 <= j < before.len() implies #[trigger] cell_verts@[j]
                == before[j] by {}
            assert(cell_verts@[before.len() as int] == 1u32);
            assert(cell_verts@[before.len() as int + 1] == i as u32);
            assert forall|p: int|
                0 <= p < i + 1 implies #[trigger] cell_verts@[2 * p] == 1 && cell_verts@[2 * p + 1]
                == p by {
                if p < i {
                    assert(cell_verts@[2 * p] == before[2 * p]);
                    assert(cell_verts@[2 * p + 1] == before[2 * p + 1]);
                } else {
                    assert(p == i as int && before.len() == 2 * p);
                }
            }
        }
        i += 1;
    }
    Some(cell_verts)
}

} // verus!
