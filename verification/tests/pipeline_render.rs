//! The rasterization pipeline: coverage, culling, shading and whole
//! renders.

use softrender::fixed::{Fx, FX_SCALE};
use softrender::framebuffer::FrameBuffer;
use softrender::light::Light;
use softrender::matrix3::Matrix3;
use softrender::matrix4::Matrix4;
use softrender::mesh::Vertex;
use softrender::mesh::Mesh;
use softrender::pipeline::{barycentric, draw_mesh, draw_triangle, fresnel, is_back_face, Uniform};
use softrender::quat::Quat;
use softrender::texture::Texture;
use softrender::transform::Transform;
use softrender::vector2::Vector2;
use softrender::vector3::Vector3;
use softrender::vector4::Vector4;

fn fxi(v: i64) -> Fx {
    Fx::from_int(v)
}

fn solid_tex(r: Fx, g: Fx, b: Fx, a: Fx) -> Texture {
    Texture::new(vec![Vector4::new(r, g, b, a)], 1, 1)
}

fn test_uniform(albedo: Texture) -> Uniform {
    let white = solid_tex(Fx::one(), Fx::one(), Fx::one(), Fx::one());
    let black = solid_tex(Fx::zero(), Fx::zero(), Fx::zero(), Fx::one());
    // Fully rough, non-metallic surface.
    let rough = solid_tex(Fx::zero(), Fx::one(), Fx::zero(), Fx::one());
    let light = Light::new(
        Vector3::new(Fx::zero(), Fx::zero(), Fx::zero()),
        Vector3::new(fxi(25), fxi(25), fxi(25)),
        Transform::new(
            Vector3::new(Fx::zero(), Fx::zero(), fxi(5)),
            Quat::identity(),
            Vector3::new(Fx::one(), Fx::one(), Fx::one()),
        ),
    );
    Uniform {
        mv: Matrix4::identity(),
        normal_matrix: Matrix3::identity(),
        projection: Matrix4::identity(),
        light,
        ao_tex: white.clone(),
        emissive_tex: black,
        albedo_tex: albedo,
        metal_roughness_tex: rough,
        normal_tex: white,
    }
}

fn full_view_triangle() -> [Vertex; 3] {
    let half = Fx::from_bits(FX_SCALE / 2);
    let n = Vector3::new(Fx::zero(), Fx::zero(), Fx::one());
    let uv = Vector2::new(Fx::zero(), Fx::zero());
    [
        Vertex::new(Vector3::new(fxi(-1), fxi(1), half), uv, n),
        Vertex::new(Vector3::new(fxi(-1), fxi(-1), half), uv, n),
        Vertex::new(Vector3::new(fxi(1), fxi(1), half), uv, n),
    ]
}

#[test]
fn barycentric_sentinel_on_degenerate_triangle() {
    let o = Fx::zero();
    let v0 = Vector4::new(o, o, o, Fx::one());
    let v1 = Vector4::new(fxi(1), fxi(1), o, Fx::one());
    let v2 = Vector4::new(fxi(2), fxi(2), o, Fx::one());
    let p = Vector4::new(fxi(1), o, o, Fx::one());
    let b = barycentric(v0, v1, v2, p);
    assert_eq!(b, Vector3::new(fxi(-1), fxi(-1), fxi(-1)));
}

#[test]
fn barycentric_recovers_vertices_and_sums_to_one() {
    let o = Fx::zero();
    let one = Fx::one();
    let v0 = Vector4::new(o, o, o, one);
    let v1 = Vector4::new(fxi(4), o, o, one);
    let v2 = Vector4::new(o, fxi(4), o, one);
    let b0 = barycentric(v0, v1, v2, v0);
    assert_eq!(b0, Vector3::new(one, o, o));
    let b1 = barycentric(v0, v1, v2, v1);
    assert_eq!(b1, Vector3::new(o, one, o));
    let b2 = barycentric(v0, v1, v2, v2);
    assert_eq!(b2, Vector3::new(o, o, one));
    // An interior sample point: the weights sum to exactly one.
    let p = Vector4::new(one, one, o, one);
    let b = barycentric(v0, v1, v2, p);
    assert!(b.x.to_bits() >= 0 && b.y.to_bits() >= 0 && b.z.to_bits() >= 0);
    assert_eq!(b.x.add(b.y).add(b.z), one);
}

#[test]
fn back_face_follows_winding() {
    let o = Fx::zero();
    let one = Fx::one();
    let a = Vector4::new(o, o, o, one);
    let b = Vector4::new(one, o, o, one);
    let c = Vector4::new(o, one, o, one);
    // Counter-clockwise winding: the cross product's z is positive.
    assert!(!is_back_face(&[a, b, c]));
    // Reversed winding: the cross product's z is negative.
    assert!(is_back_face(&[a, c, b]));
}

#[test]
fn culled_triangle_leaves_the_frame_untouched() {
    let mut fb = FrameBuffer::new(4, 4);
    let uniform = test_uniform(solid_tex(Fx::one(), Fx::one(), Fx::one(), Fx::one()));
    let t = full_view_triangle();
    // Swap two vertices to flip the winding.
    let flipped = [t[0], t[2], t[1]];
    draw_triangle(&mut fb, &flipped, &uniform);
    for y in 0..4u32 {
        for x in 0..4u32 {
            assert_eq!(fb.get_color(x, y), 0xFF000000);
            assert_eq!(fb.get_depth(x, y), Fx::one());
        }
    }
}

#[test]
fn render_covers_inside_and_spares_outside() {
    let mut fb = FrameBuffer::new(4, 4);
    let uniform = test_uniform(solid_tex(Fx::one(), Fx::one(), Fx::one(), Fx::one()));
    let t = full_view_triangle();
    draw_triangle(&mut fb, &t, &uniform);
    // Pixels whose centers lie inside the triangle are shaded and
    // nearer than the far plane.
    for (x, y) in [(0u32, 0u32), (1, 0), (2, 0), (0, 1), (1, 1), (0, 2)] {
        assert!(fb.get_color(x, y) != 0xFF000000, "pixel ({}, {}) stayed black", x, y);
        assert!(fb.get_depth(x, y).to_bits() < FX_SCALE);
    }
    // Pixels outside keep the clear color and the far depth.
    for (x, y) in [(3u32, 3u32), (2, 2), (3, 1), (1, 3)] {
        assert_eq!(fb.get_color(x, y), 0xFF000000);
        assert_eq!(fb.get_depth(x, y), Fx::one());
    }
}

#[test]
fn depth_tie_later_triangle_wins() {
    let red = solid_tex(Fx::one(), Fx::zero(), Fx::zero(), Fx::one());
    let green = solid_tex(Fx::zero(), Fx::one(), Fx::zero(), Fx::one());
    let t = full_view_triangle();

    let mut fb_both = FrameBuffer::new(4, 4);
    let uniform_red = test_uniform(red);
    let uniform_green = test_uniform(green.clone());
    draw_triangle(&mut fb_both, &t, &uniform_red);
    let red_color = fb_both.get_color(0, 0);
    draw_triangle(&mut fb_both, &t, &uniform_green);

    let mut fb_green = FrameBuffer::new(4, 4);
    let uniform_green2 = test_uniform(green);
    draw_triangle(&mut fb_green, &t, &uniform_green2);

    // Identical interpolated depth at every shared pixel: the
    // later-submitted triangle's color stands.
    assert_eq!(fb_both.get_color(0, 0), fb_green.get_color(0, 0));
    assert!(fb_both.get_color(0, 0) != red_color);
}

#[test]
fn draw_mesh_matches_per_triangle_draws() {
    let t = full_view_triangle();
    let mut mesh = Mesh::new();
    mesh.vertices = vec![t[0], t[1], t[2]];
    mesh.indices = vec![0, 1, 2];
    assert!(mesh.check_indices());

    let uniform = test_uniform(solid_tex(Fx::one(), Fx::one(), Fx::one(), Fx::one()));
    let mut fb_mesh = FrameBuffer::new(4, 4);
    draw_mesh(&mut fb_mesh, &mesh, &uniform);

    let mut fb_tri = FrameBuffer::new(4, 4);
    draw_triangle(&mut fb_tri, &t, &uniform);

    for y in 0..4u32 {
        for x in 0..4u32 {
            assert_eq!(fb_mesh.get_color(x, y), fb_tri.get_color(x, y));
            assert_eq!(fb_mesh.get_depth(x, y), fb_tri.get_depth(x, y));
        }
    }
}

#[test]
fn draw_mesh_on_empty_mesh_changes_nothing() {
    let mesh = Mesh::new();
    let uniform = test_uniform(solid_tex(Fx::one(), Fx::one(), Fx::one(), Fx::one()));
    let mut fb = FrameBuffer::new(2, 2);
    draw_mesh(&mut fb, &mesh, &uniform);
    for y in 0..2u32 {
        for x in 0..2u32 {
            assert_eq!(fb.get_color(x, y), 0xFF000000);
            assert_eq!(fb.get_depth(x, y), Fx::one());
        }
    }
}

#[test]
fn fresnel_is_base_reflectance_at_normal_incidence() {
    let f0 = Vector3::new(Fx::from_bits(2621), Fx::from_bits(FX_SCALE / 2), Fx::one());
    assert_eq!(fresnel(Fx::one(), f0), f0);
}

#[test]
fn fresnel_grows_at_grazing_incidence() {
    let f0 = Vector3::new(Fx::from_bits(2621), Fx::from_bits(2621), Fx::from_bits(2621));
    let grazing = fresnel(Fx::zero(), f0);
    assert!(grazing.x.to_bits() > f0.x.to_bits());
}

#[test]
fn texture_sampling_wraps_fractionally() {
    let mut pixels = Vec::new();
    for i in 0..16i64 {
        let c = Fx::from_bits(i * 4096);
        pixels.push(Vector4::new(c, c, c, Fx::one()));
    }
    let tex = Texture::new(pixels, 4, 4);
    let u_wrapped = Vector2::new(Fx::from_bits(FX_SCALE + FX_SCALE / 4), Fx::from_bits(-6554));
    let u_plain = Vector2::new(Fx::from_bits(FX_SCALE / 4), Fx::from_bits(FX_SCALE - 6554));
    assert_eq!(tex.sample(u_wrapped), tex.sample(u_plain));
}

#[test]
fn frame_buffer_clear_resets_colors_and_depth() {
    let mut fb = FrameBuffer::new(3, 2);
    fb.set_color(2, 1, 0xFF00FF00);
    fb.set_depth(2, 1, Fx::from_bits(FX_SCALE / 2));
    fb.clear(0xFF112233);
    for y in 0..2u32 {
        for x in 0..3u32 {
            assert_eq!(fb.get_color(x, y), 0xFF112233);
            assert_eq!(fb.get_depth(x, y), Fx::one());
        }
    }
}

#[test]
fn color_packing_clamps_channels() {
    let c = Vector4::new(fxi(2), Fx::one(), Fx::from_bits(FX_SCALE / 2), fxi(-1));
    // 2 clamps to 255, 1 scales to 255, 0.5 truncates to 127, -1
    // clamps to 0.
    assert_eq!(c.to_u32(), 0x00FFFF7F);
}
