//! Shading helper factors, mesh validation and the scene container.

use softrender::fixed::{Fx, FX_SCALE};
use softrender::light::Light;
use softrender::matrix3::Matrix3;
use softrender::matrix4::Matrix4;
use softrender::mesh::{Mesh, Vertex};
use softrender::pipeline::{distribution_factor, geom_smith_factor, vertex_shader, Uniform};
use softrender::quat::Quat;
use softrender::scene::{Node, Scene};
use softrender::texture::Texture;
use softrender::transform::Transform;
use softrender::vector2::Vector2;
use softrender::vector3::Vector3;
use softrender::vector4::Vector4;

fn fxi(v: i64) -> Fx {
    Fx::from_int(v)
}

#[test]
fn geom_smith_factor_at_full_alignment() {
    // dot = 1, roughness = 0: k = 1/8, the denominator is exactly
    // one, so the factor is exactly one.
    assert_eq!(geom_smith_factor(Fx::one(), Fx::zero()), Fx::one());
}

#[test]
fn geom_smith_factor_floors_the_denominator() {
    // dot = -8 and roughness = 0 drive the denominator below zero;
    // the floored value keeps the quotient finite and positive.
    let r = geom_smith_factor(fxi(-8), Fx::zero());
    assert!(r.to_bits() > 0);
}

#[test]
fn distribution_factor_at_unit_inputs() {
    // n.h = 1, alpha2 = 1: the factor collapses to 1 / pi.
    let d = distribution_factor(Fx::one(), Fx::one());
    assert_eq!(d, Fx::from_bits(20860));
}

#[test]
fn mesh_index_validation() {
    let v = Vertex::new(
        Vector3::new(Fx::zero(), Fx::zero(), Fx::zero()),
        Vector2::new(Fx::zero(), Fx::zero()),
        Vector3::new(Fx::zero(), Fx::zero(), Fx::one()),
    );
    let mut mesh = Mesh::new();
    assert!(mesh.check_indices());
    mesh.vertices = vec![v, v, v];
    mesh.indices = vec![0, 1, 2];
    assert!(mesh.check_indices());
    // An index past the vertex run is rejected.
    mesh.indices = vec![0, 1, 3];
    assert!(!mesh.check_indices());
    // A dangling pair short of a whole triangle is rejected.
    mesh.indices = vec![0, 1];
    assert!(!mesh.check_indices());
}

#[test]
fn scene_accessors_round_trip() {
    let mut scene = Scene::new();
    scene.nodes.push(Node { mesh: None, children: vec![1], parent: None, index: 0 });
    scene.nodes.push(Node { mesh: Some(0), children: Vec::new(), parent: Some(0), index: 1 });
    scene.root = Some(0);
    scene.meshes.push(softrender::scene::Mesh {
        first_index: 0,
        num_indices: 3,
        first_vertex: 0,
        num_vertices: 3,
    });
    scene.vertices.push(Vector3::new(fxi(1), fxi(2), fxi(3)));
    scene.normals.push(Vector3::new(Fx::zero(), Fx::zero(), Fx::one()));
    scene.indices.push(7);
    assert_eq!(scene.root().index, 0);
    assert_eq!(scene.node(1).parent, Some(0));
    assert_eq!(scene.mesh(0).num_indices, 3);
    assert_eq!(*scene.position(0), Vector3::new(fxi(1), fxi(2), fxi(3)));
    assert_eq!(*scene.normal(0), Vector3::new(Fx::zero(), Fx::zero(), Fx::one()));
    assert_eq!(scene.indice(0), 7);
}

#[test]
fn vertex_stage_under_identity_matrices() {
    let solid = Texture::new(vec![Vector4::new(Fx::one(), Fx::one(), Fx::one(), Fx::one())], 1, 1);
    let uniform = Uniform {
        mv: Matrix4::identity(),
        normal_matrix: Matrix3::identity(),
        projection: Matrix4::identity(),
        light: Light::new(
            Vector3::new(Fx::zero(), Fx::zero(), Fx::zero()),
            Vector3::new(Fx::one(), Fx::one(), Fx::one()),
            Transform::identity(),
        ),
        ao_tex: solid.clone(),
        emissive_tex: solid.clone(),
        albedo_tex: solid.clone(),
        metal_roughness_tex: solid.clone(),
        normal_tex: solid,
    };
    let vertex = Vertex::new(
        Vector3::new(fxi(1), fxi(-2), fxi(3)),
        Vector2::new(Fx::from_bits(FX_SCALE / 4), Fx::from_bits(FX_SCALE / 2)),
        Vector3::new(Fx::zero(), Fx::one(), Fx::zero()),
    );
    let out = vertex_shader(&vertex, &uniform);
    // Identity model-view and projection: the clip position is the
    // homogeneous input, the varyings carry the inputs through.
    assert_eq!(out.position, Vector4::new(fxi(1), fxi(-2), fxi(3), Fx::one()));
    assert_eq!(out.varying.position, vertex.position);
    assert_eq!(out.varying.tex_coord, vertex.tex_coord);
    assert_eq!(out.varying.normal, vertex.normal);
}
