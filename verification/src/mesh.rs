//! Vertices and triangle lists. The loaders that fill these from
//! files live outside the library; the library checks the shape it
//! needs: every index names a vertex.

use vstd::prelude::*;

verus! {

use crate::transform::Transform;
use crate::vector2::Vec2S;
use crate::vector2::Vector2;
use crate::vector3::Vec3S;
use crate::vector3::Vector3;

/// One vertex: position, texture coordinates, normal.
#[derive(Clone, Copy, PartialEq, Eq, Structural, Debug)]
pub struct Vertex {
    pub position: Vector3,
    pub tex_coord: Vector2,
    pub normal: Vector3,
}

/// Mathematical image of a `Vertex`.
pub struct VertexS {
    pub position: Vec3S,
    pub tex_coord: Vec2S,
    pub normal: Vec3S,
}

impl View for Vertex {
    type V = VertexS;

    open spec fn view(&self) -> VertexS {
        VertexS { position: self.position@, tex_coord: self.tex_coord@, normal: self.normal@ }
    }
}

impl Vertex {
    /// Build a vertex from its attributes.
    pub fn new(position: Vector3, tex_coord: Vector2, normal: Vector3) -> (r: Vertex)
        ensures
            r == (Vertex { position, tex_coord, normal }),
    {
        Vertex { position, tex_coord, normal }
    }
}

/// Every index names a vertex, and the indices form whole triangles.
pub open spec fn mesh_indices_wf(vertices: Seq<Vertex>, indices: Seq<usize>) -> bool {
    &&& forall|i: int| 0 <= i < indices.len() ==> (#[trigger] indices[i]) < vertices.len()
    &&& indices.len() % 3 == 0
}

/// A triangle mesh with its placement.
pub struct Mesh {
    pub vertices: Vec<Vertex>,
    pub indices: Vec<usize>,
    pub diffuse_texture: Option<String>,
    pub transform: Transform,
}

impl Mesh {
    /// The empty mesh with the identity placement.
    pub fn new() -> (r: Mesh)
        ensures
            r.vertices@.len() == 0,
            r.indices@.len() == 0,
            r.diffuse_texture is None,
            mesh_indices_wf(r.vertices@, r.indices@),
    {
        Mesh {
            vertices: Vec::new(),
            indices: Vec::new(),
            diffuse_texture: None,
            transform: Transform::identity(),
        }
    }

    /// Whether every index names a vertex and the indices form whole
    /// triangles. A mesh that fails this check cannot be drawn.
    pub fn check_indices(&self) -> (r: bool)
        ensures
            r == mesh_indices_wf(self.vertices@, self.indices@),
    {
        if self.indices.len() % 3 != 0 {
            return false;
        }
        let mut i: usize = 0;
        while i < self.indices.len()
            invariant
                i <= self.indices@.len(),
                forall|j: int| 0 <= j < i ==> (#[trigger] self.indices@[j]) < self.vertices@.len(),
            decreases self.indices@.len() - i,
        {
            if self.indices[i] >= self.vertices.len() {
                return false;
            }
            i = i + 1;
        }
        true
    }
}

} // verus!
