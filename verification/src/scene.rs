//! A flattened scene: a node tree plus shared vertex, normal, UV and
//! index buffers, with per-mesh ranges into them. The importer that
//! fills a scene from an asset file lives outside the library.

use vstd::prelude::*;

verus! {

use crate::vector2::Vector2;
use crate::vector3::Vector3;

/// One node of the scene tree.
#[derive(Clone, Debug)]
pub struct Node {
    pub mesh: Option<u32>,
    pub children: Vec<u32>,
    pub parent: Option<u32>,
    pub index: u32,
}

/// One mesh's ranges into the scene's shared buffers.
#[derive(Clone, Copy, PartialEq, Eq, Structural, Debug)]
pub struct Mesh {
    pub first_index: u32,
    pub num_indices: u32,
    pub first_vertex: u32,
    pub num_vertices: u32,
}

/// The flattened scene.
pub struct Scene {
    pub nodes: Vec<Node>,
    pub meshes: Vec<Mesh>,
    pub root: Option<u32>,
    pub vertices: Vec<Vector3>,
    pub normals: Vec<Vector3>,
    pub tex_coords: Vec<Vector2>,
    pub indices: Vec<u32>,
}

impl Scene {
    /// The empty scene.
    pub fn new() -> (r: Scene)
        ensures
            r.nodes@.len() == 0,
            r.meshes@.len() == 0,
            r.root is None,
            r.vertices@.len() == 0,
            r.normals@.len() == 0,
            r.tex_coords@.len() == 0,
            r.indices@.len() == 0,
    {
        Scene {
            nodes: Vec::new(),
            meshes: Vec::new(),
            root: None,
            vertices: Vec::new(),
            normals: Vec::new(),
            tex_coords: Vec::new(),
            indices: Vec::new(),
        }
    }

    /// The node at `index`.
    pub fn node(&self, index: u32) -> (r: &Node)
        requires
            index < self.nodes@.len(),
        ensures
            r == self.nodes@[index as int],
    {
        &self.nodes[index as usize]
    }

    /// The mesh ranges at `index`.
    pub fn mesh(&self, index: u32) -> (r: &Mesh)
        requires
            index < self.meshes@.len(),
        ensures
            r == self.meshes@[index as int],
    {
        &self.meshes[index as usize]
    }

    /// The root node.
    pub fn root(&self) -> (r: &Node)
        requires
            self.root is Some,
            self.root.unwrap() < self.nodes@.len(),
        ensures
            r == self.nodes@[self.root.unwrap() as int],
    {
        &self.nodes[self.root.unwrap() as usize]
    }

    /// The vertex position at `index`.
    pub fn position(&self, index: u32) -> (r: &Vector3)
        requires
            index < self.vertices@.len(),
        ensures
            r == self.vertices@[index as int],
    {
        &self.vertices[index as usize]
    }

    /// The vertex normal at `index`.
    pub fn normal(&self, index: u32) -> (r: &Vector3)
        requires
            index < self.normals@.len(),
        ensures
            r == self.normals@[index as int],
    {
        &self.normals[index as usize]
    }

    /// The index-buffer entry at `index`.
    pub fn indice(&self, index: u32) -> (r: u32)
        requires
            index < self.indices@.len(),
        ensures
            r == self.indices@[index as int],
    {
        self.indices[index as usize]
    }
}

} // verus!
