//! Basic mesh types used by the library.

use vstd::prelude::*;

verus! {

/// A triangle surface mesh in 3D: vertex positions with scalars of kind
/// `R`, and triangles as triples of vertex indices.
#[derive(Clone, Debug, Default, PartialEq)]
pub struct TriMesh3d<R> {
    /// Coordinates of the mesh vertices.
    pub vertices: Vec<[R; 3]>,
    /// The triangles of the mesh identified by their vertex indices.
    pub triangles: Vec<[usize; 3]>,
}

impl<R: Copy> TriMesh3d<R> {
    /// Every triangle of the mesh points at existing vertices.
    pub open spec fn well_formed(self) -> bool {
        forall|t: int, k: int|
            0 <= t < self.triangles@.len() && 0 <= k < 3 ==> #[trigger] self.triangles@[t][k]
                < self.vertices@.len()
    }

    /// Constructs the empty mesh.
    pub fn new() -> (mesh: Self)
        ensures
            mesh.vertices@.len() == 0,
            mesh.triangles@.len() == 0,
    {
        Self { vertices: Vec::new(), triangles: Vec::new() }
    }

    /// Removes all vertices and triangles, keeping the allocations.
    pub fn clear(&mut self)
        ensures
            final(self).vertices@.len() == 0,
            final(self).triangles@.len() == 0,
    {
        self.vertices.clear();
        self.triangles.clear();
    }
}

/// Data of a named point attribute carried alongside a mesh: one scalar or
/// one 3-vector for each mesh vertex.
#[derive(Clone, Debug, PartialEq)]
pub enum AttributeData<R> {
    /// One scalar per vertex.
    ScalarReal(Vec<R>),
    /// One 3-vector per vertex.
    Vector3Real(Vec<[R; 3]>),
}

/// A named attribute array carried alongside a mesh.
#[derive(Clone, Debug, PartialEq)]
pub struct MeshAttribute<R> {
    /// Name of the attribute.
    pub name: String,
    /// The attribute's values.
    pub data: AttributeData<R>,
}

impl<R: Copy> MeshAttribute<R> {
    /// Constructs a named attribute from its values.
    pub fn new(name: String, data: AttributeData<R>) -> (attribute: Self)
        ensures
            attribute.name == name,
            attribute.data == data,
    {
        Self { name, data }
    }
}

/// A triangle mesh together with its point attributes.
#[derive(Clone, Debug, PartialEq)]
pub struct MeshWithData<R> {
    /// The mesh itself.
    pub mesh: TriMesh3d<R>,
    /// Attributes of the mesh vertices.
    pub point_attributes: Vec<MeshAttribute<R>>,
}

impl<R: Copy> MeshWithData<R> {
    /// Wraps a mesh that carries no attributes yet.
    pub fn new(mesh: TriMesh3d<R>) -> (with_data: Self)
        ensures
            with_data.mesh == mesh,
            with_data.point_attributes@.len() == 0,
    {
        Self { mesh, point_attributes: Vec::new() }
    }
}

} // verus!
