//! The per-triangle rasterization pipeline: vertex stage, back-face
//! cull, perspective divide, viewport mapping, bounding-box scan
//! conversion with a depth test, perspective-correct interpolation,
//! and the physically-based fragment stage.

use vstd::prelude::*;

verus! {

use crate::fixed::FX_MAX;
use crate::fixed::FX_MIN;
use crate::fixed::FX_SCALE;
use crate::fixed::Fx;
use crate::fixed::fabs;
use crate::fixed::fadd;
use crate::fixed::fclamp;
use crate::fixed::fdiv;
use crate::fixed::fmul;
use crate::fixed::fsub;
use crate::fixed::sat;
use crate::framebuffer::FrameBuffer;
use crate::framebuffer::FrameBufferS;
use crate::framebuffer::fb_in_bounds;
use crate::framebuffer::fb_index;
use crate::framebuffer::fb_wf;
use crate::light::Light;
use crate::light::LightS;
use crate::matrix3::Matrix3;
use crate::matrix4::Matrix4;
use crate::matrix4::m4_mul;
use crate::matrix4::m4_mul_vec;
use crate::mesh::Vertex;
use crate::mesh::VertexS;
use crate::texture::Texture;
use crate::texture::TextureS;
use crate::texture::tex_channels_bounded;
use crate::texture::tex_slot;
use crate::texture::tex_wf;
use crate::vector2::Vec2S;
use crate::vector2::Vector2;
use crate::vector2::v2_dot;
use crate::vector3::Vec3S;
use crate::vector3::Vector3;
use crate::vector3::v3_add;
use crate::vector3::v3_cross;
use crate::vector3::v3_dot;
use crate::vector3::v3_length_squared;
use crate::vector3::v3_mul;
use crate::vector3::v3_neg;
use crate::vector3::v3_normalize;
use crate::vector3::v3_scale;
use crate::vector3::v3_sub;
use crate::vector4::Vec4S;
use crate::vector4::Vector4;
use crate::vector4::pack_color;
use crate::vector4::v4_sub;
use crate::vector4::v4_xyz;

/// The circle constant, rounded down to the scalar resolution.
pub const PI_BITS: i64 = 205887;

/// Dielectric base reflectance (0.04), rounded down to the scalar
/// resolution.
pub const F0_BITS: i64 = 2621;

/// The fixed ambient color per channel (0.1), rounded down to the
/// scalar resolution.
pub const AMBIENT_BITS: i64 = 6553;

/// Floor for the geometry-term denominator: a small positive value
/// (about 1e-4) that keeps the quotient finite.
pub const GEOM_EPS_BITS: i64 = 7;

/// Per-draw shading inputs, constant across all fragments of a draw.
pub struct Uniform {
    pub mv: Matrix4,
    pub normal_matrix: Matrix3,
    pub projection: Matrix4,
    pub light: Light,
    pub ao_tex: Texture,
    pub emissive_tex: Texture,
    pub albedo_tex: Texture,
    pub metal_roughness_tex: Texture,
    pub normal_tex: Texture,
}

/// Mathematical image of a `Uniform`.
pub struct UniformS {
    pub mv: Seq<int>,
    pub normal_matrix: Seq<int>,
    pub projection: Seq<int>,
    pub light: LightS,
    pub ao_tex: TextureS,
    pub emissive_tex: TextureS,
    pub albedo_tex: TextureS,
    pub metal_roughness_tex: TextureS,
    pub normal_tex: TextureS,
}

impl View for Uniform {
    type V = UniformS;

    open spec fn view(&self) -> UniformS {
        UniformS {
            mv: self.mv@,
            normal_matrix: self.normal_matrix@,
            projection: self.projection@,
            light: self.light@,
            ao_tex: self.ao_tex@,
            emissive_tex: self.emissive_tex@,
            albedo_tex: self.albedo_tex@,
            metal_roughness_tex: self.metal_roughness_tex@,
            normal_tex: self.normal_tex@,
        }
    }
}

/// Every texture the fragment stage samples is well-formed.
pub open spec fn uniform_wf(u: UniformS) -> bool {
    &&& tex_wf(u.ao_tex)
    &&& tex_wf(u.emissive_tex)
    &&& tex_wf(u.albedo_tex)
    &&& tex_wf(u.metal_roughness_tex)
    &&& tex_wf(u.normal_tex)
}

/// Per-vertex state interpolated across a triangle for the fragment
/// stage.
#[derive(Clone, Copy, PartialEq, Eq, Structural, Debug)]
pub struct Varying {
    pub tex_coord: Vector2,
    pub normal: Vector3,
    pub position: Vector3,
}

/// Mathematical image of a `Varying`.
pub struct VaryingS {
    pub tex_coord: Vec2S,
    pub normal: Vec3S,
    pub position: Vec3S,
}

impl View for Varying {
    type V = VaryingS;

    open spec fn view(&self) -> VaryingS {
        VaryingS { tex_coord: self.tex_coord@, normal: self.normal@, position: self.position@ }
    }
}

/// The vertex stage's output: a clip-space position and the varying
/// state.
pub struct VertexOutput {
    pub position: Vector4,
    pub varying: Varying,
}

/// Mathematical image of a `VertexOutput`.
pub struct VertexOutputS {
    pub position: Vec4S,
    pub varying: VaryingS,
}

impl View for VertexOutput {
    type V = VertexOutputS;

    open spec fn view(&self) -> VertexOutputS {
        VertexOutputS { position: self.position@, varying: self.varying@ }
    }
}

/// An axis-aligned screen-space box.
#[derive(Clone, Copy, PartialEq, Eq, Structural, Debug)]
pub struct Box2D {
    pub min: Vector2,
    pub max: Vector2,
}

/// Mathematical image of a `Box2D`.
pub struct Box2DS {
    pub min: Vec2S,
    pub max: Vec2S,
}

impl View for Box2D {
    type V = Box2DS;

    open spec fn view(&self) -> Box2DS {
        Box2DS { min: self.min@, max: self.max@ }
    }
}

/// The vertex stage: clip-space position and varying state from one
/// vertex. The normal rides through the full model-view matrix,
/// which is faithful only for rotation and uniform scale.
#[verifier::opaque]
pub open spec fn s_vertex_shader(v: VertexS, u: UniformS) -> VertexOutputS {
    let pos4 = Vec4S { x: v.position.x, y: v.position.y, z: v.position.z, w: FX_SCALE as int };
    let view_pos = m4_mul_vec(u.mv, pos4);
    let norm4 = Vec4S { x: v.normal.x, y: v.normal.y, z: v.normal.z, w: 0 };
    let normal = v3_normalize(v4_xyz(m4_mul_vec(u.mv, norm4)));
    let position = m4_mul_vec(m4_mul(u.projection, u.mv), pos4);
    VertexOutputS {
        position,
        varying: VaryingS { tex_coord: v.tex_coord, normal, position: v4_xyz(view_pos) },
    }
}

/// The vertex stage.
pub fn vertex_shader(vertex: &Vertex, uniform: &Uniform) -> (r: VertexOutput)
    ensures
        r@ == s_vertex_shader(vertex@, uniform@),
{
    proof {
        reveal(s_vertex_shader);
    }
    let pos4 = Vector4::new(vertex.position.x, vertex.position.y, vertex.position.z, Fx::one());
    let view_pos = uniform.mv.mul_vec4(pos4);
    let normal = uniform.mv.mul_vec4(
        Vector4::new(vertex.normal.x, vertex.normal.y, vertex.normal.z, Fx::zero()),
    ).xyz().normalize();
    let position = uniform.projection.mul(uniform.mv).mul_vec4(pos4);
    let varying = Varying { tex_coord: vertex.tex_coord, normal, position: view_pos.xyz() };
    VertexOutput { position, varying }
}

/// The Trowbridge-Reitz normal-distribution factor.
pub open spec fn s_distribution_factor(n_dot_h: int, alpha2: int) -> int {
    let n_dot_h_2 = fmul(n_dot_h, n_dot_h);
    let factor = fadd(fmul(n_dot_h_2, fsub(alpha2, FX_SCALE as int)), FX_SCALE as int);
    fdiv(alpha2, fmul(fmul(PI_BITS as int, factor), factor))
}

/// The Trowbridge-Reitz normal-distribution factor.
pub fn distribution_factor(n_dot_h: Fx, alpha2: Fx) -> (r: Fx)
    ensures
        r@ == s_distribution_factor(n_dot_h@, alpha2@),
{
    let n_dot_h_2 = n_dot_h.mul(n_dot_h);
    let factor = n_dot_h_2.mul(alpha2.sub(Fx::one())).add(Fx::one());
    alpha2.div(Fx::from_bits(PI_BITS).mul(factor).mul(factor))
}

/// One direction's Schlick-GGX geometry factor, with the denominator
/// floored to a small positive value.
pub open spec fn s_geom_smith_factor(dot_product: int, roughness: int) -> int {
    let k = fdiv(
        fmul(fadd(roughness, FX_SCALE as int), fadd(roughness, FX_SCALE as int)),
        8 * FX_SCALE as int,
    );
    let denom = fadd(fmul(dot_product, fsub(FX_SCALE as int, k)), k);
    if denom <= 0 {
        fdiv(FX_SCALE as int, GEOM_EPS_BITS as int)
    } else {
        fdiv(FX_SCALE as int, denom)
    }
}

/// The distribution factor is never negative when the squared
/// roughness handed to it is not.
pub proof fn lemma_distribution_factor_nonneg(n_dot_h: int, alpha2: int)
    requires
        0 <= alpha2,
    ensures
        0 <= s_distribution_factor(n_dot_h, alpha2),
{
    let s = FX_SCALE as int;
    let n_dot_h_2 = fmul(n_dot_h, n_dot_h);
    let factor = fadd(fmul(n_dot_h_2, fsub(alpha2, s)), s);
    let inner = fmul(PI_BITS as int, factor);
    if factor >= 0 {
        crate::fixed::lemma_fmul_nonneg(PI_BITS as int, factor);
        crate::fixed::lemma_fmul_nonneg(inner, factor);
    } else {
        crate::fixed::lemma_fmul_nonneg_nonpos(PI_BITS as int, factor);
        crate::fixed::lemma_fmul_nonpos_nonpos(inner, factor);
    }
    crate::fixed::lemma_fdiv_nonneg(alpha2, fmul(inner, factor));
}

/// One direction's Schlick-GGX geometry factor.
pub fn geom_smith_factor(dot_product: Fx, roughness: Fx) -> (r: Fx)
    ensures
        r@ == s_geom_smith_factor(dot_product@, roughness@),
{
    let k = roughness.add(Fx::one()).mul(roughness.add(Fx::one())).div(Fx::from_int(8));
    let mut denom = dot_product.mul(Fx::one().sub(k)).add(k);
    if denom.le(Fx::zero()) {
        denom = Fx::from_bits(GEOM_EPS_BITS);
    }
    Fx::one().div(denom)
}

/// The geometry factor is never negative: its denominator is
/// floored to a positive value before the division.
pub proof fn lemma_geom_smith_factor_nonneg(dot_product: int, roughness: int)
    ensures
        0 <= s_geom_smith_factor(dot_product, roughness),
{
    let s = FX_SCALE as int;
    let k = fdiv(fmul(fadd(roughness, s), fadd(roughness, s)), 8 * s);
    let denom = fadd(fmul(dot_product, fsub(s, k)), k);
    if denom <= 0 {
        crate::fixed::lemma_fdiv_nonneg(s, GEOM_EPS_BITS as int);
    } else {
        crate::fixed::lemma_fdiv_nonneg(s, denom);
    }
}

/// The fifth power, as the chain of products the shader evaluates.
pub open spec fn s_pow5(t: int) -> int {
    fmul(fmul(fmul(fmul(t, t), t), t), t)
}

/// The Schlick Fresnel approximation: `f0 + (1 - f0) * (1 - v.h)^5`,
/// the base term clamped to `[0, 1]` before the power.
pub open spec fn s_fresnel(v_dot_h: int, f0: Vec3S) -> Vec3S {
    let ones = Vec3S { x: FX_SCALE as int, y: FX_SCALE as int, z: FX_SCALE as int };
    let t = fclamp(fsub(FX_SCALE as int, v_dot_h), 0, FX_SCALE as int);
    v3_add(f0, v3_scale(v3_sub(ones, f0), s_pow5(t)))
}

/// The Schlick Fresnel approximation.
pub fn fresnel(v_dot_h: Fx, f0: Vector3) -> (r: Vector3)
    ensures
        r@ == s_fresnel(v_dot_h@, f0@),
{
    let ones = Vector3::new(Fx::one(), Fx::one(), Fx::one());
    let t = Fx::one().sub(v_dot_h).clamp(Fx::zero(), Fx::one());
    let p5 = t.mul(t).mul(t).mul(t).mul(t);
    f0.add(ones.sub(f0).scale(p5))
}

/// The Fresnel term is never negative for a base reflectance inside
/// `[0, 1]`.
pub proof fn lemma_fresnel_nonneg(v_dot_h: int, f0: Vec3S)
    requires
        0 <= f0.x <= FX_SCALE as int,
        0 <= f0.y <= FX_SCALE as int,
        0 <= f0.z <= FX_SCALE as int,
    ensures
        0 <= s_fresnel(v_dot_h, f0).x,
        0 <= s_fresnel(v_dot_h, f0).y,
        0 <= s_fresnel(v_dot_h, f0).z,
{
    let s = FX_SCALE as int;
    let t = fclamp(fsub(s, v_dot_h), 0, s);
    crate::fixed::lemma_fmul_nonneg(t, t);
    crate::fixed::lemma_fmul_nonneg(fmul(t, t), t);
    crate::fixed::lemma_fmul_nonneg(fmul(fmul(t, t), t), t);
    crate::fixed::lemma_fmul_nonneg(fmul(fmul(fmul(t, t), t), t), t);
    let ones = Vec3S { x: s, y: s, z: s };
    let d = v3_sub(ones, f0);
    crate::fixed::lemma_fmul_nonneg(d.x, s_pow5(t));
    crate::fixed::lemma_fmul_nonneg(d.y, s_pow5(t));
    crate::fixed::lemma_fmul_nonneg(d.z, s_pow5(t));
}

/// The larger of a value and zero.
pub open spec fn s_max0(a: int) -> int {
    if a > 0 {
        a
    } else {
        0
    }
}

/// The fragment stage: the Cook-Torrance metallic-roughness model
/// under the one point light, each output channel clamped to
/// `[0, 1]`, alpha opaque.
#[verifier::opaque]
pub open spec fn s_fragment_shader(var: VaryingS, u: UniformS) -> Vec4S {
    let s = FX_SCALE as int;
    let normal = v3_normalize(var.normal);
    let uv = var.tex_coord;
    let ao = u.ao_tex.pixels[tex_slot(u.ao_tex, uv.x, uv.y)].x;
    let emission = v4_xyz(u.emissive_tex.pixels[tex_slot(u.emissive_tex, uv.x, uv.y)]);
    let albedo = v4_xyz(u.albedo_tex.pixels[tex_slot(u.albedo_tex, uv.x, uv.y)]);
    let mr = u.metal_roughness_tex.pixels[tex_slot(u.metal_roughness_tex, uv.x, uv.y)];
    let roughness = mr.y;
    let metallic = mr.z;
    let v = v3_neg(var.position);
    let f0base = Vec3S { x: F0_BITS as int, y: F0_BITS as int, z: F0_BITS as int };
    let f0 = v3_add(v3_scale(f0base, fsub(s, metallic)), v3_scale(albedo, metallic));
    let l0 = v3_sub(u.light.transform.position, var.position);
    let distance_sqr = v3_length_squared(l0);
    let l = v3_normalize(l0);
    let h = v3_normalize(v3_add(v, l));
    let n_dot_v = s_max0(v3_dot(normal, v));
    let n_dot_l = v3_dot(normal, l);
    if n_dot_l <= 0 {
        Vec4S { x: 0, y: 0, z: 0, w: s }
    } else {
        let n_dot_h = s_max0(v3_dot(normal, h));
        let v_dot_h = s_max0(v3_dot(v, h));
        let attenuation = fdiv(s, distance_sqr);
        let radiance = v3_scale(u.light.intensity, attenuation);
        let alpha_roughness = fmul(roughness, roughness);
        let alpha2 = fmul(alpha_roughness, alpha_roughness);
        let d_term = s_distribution_factor(n_dot_h, alpha2);
        let v_term = fmul(
            s_geom_smith_factor(n_dot_l, roughness),
            s_geom_smith_factor(n_dot_v, roughness),
        );
        let f_term = s_fresnel(v_dot_h, f0);
        let diffuse = v3_scale(albedo, fdiv(s, PI_BITS as int));
        let specular = v3_scale(v3_scale(v3_scale(f_term, v_term), d_term), 16384);
        let ambient = v3_scale(
            Vec3S { x: AMBIENT_BITS as int, y: AMBIENT_BITS as int, z: AMBIENT_BITS as int },
            ao,
        );
        let color0 = v3_add(v3_add(diffuse, specular), emission);
        let color1 = v3_mul(v3_scale(color0, n_dot_l), radiance);
        let color2 = v3_add(v3_add(color1, emission), ambient);
        Vec4S {
            x: fclamp(color2.x, 0, s),
            y: fclamp(color2.y, 0, s),
            z: fclamp(color2.z, 0, s),
            w: s,
        }
    }
}

/// The fragment stage.
pub fn fragment_shader(varying: &Varying, uniform: &Uniform) -> (r: Vector4)
    requires
        uniform_wf(uniform@),
    ensures
        r@ == s_fragment_shader(varying@, uniform@),
{
    proof {
        reveal(s_fragment_shader);
    }
    let normal = varying.normal.normalize();
    let uv = varying.tex_coord;
    let ao = uniform.ao_tex.sample(uv).x;
    let emission = uniform.emissive_tex.sample(uv).xyz();
    let albedo = uniform.albedo_tex.sample(uv).xyz();
    let mr = uniform.metal_roughness_tex.sample(uv);
    let roughness = mr.y;
    let metallic = mr.z;
    let v = varying.position.neg();
    let f0base = Vector3::new(Fx::from_bits(F0_BITS), Fx::from_bits(F0_BITS), Fx::from_bits(F0_BITS));
    let f0 = f0base.scale(Fx::one().sub(metallic)).add(albedo.scale(metallic));
    let l0 = uniform.light.transform.position.sub(varying.position);
    let distance_sqr = l0.length_squared();
    let l = l0.normalize();
    let h = v.add(l).normalize();
    let n_dot_v = normal.dot(&v).max(Fx::zero());
    let n_dot_l = normal.dot(&l);
    if n_dot_l.le(Fx::zero()) {
        return Vector4::new(Fx::zero(), Fx::zero(), Fx::zero(), Fx::one());
    }
    let n_dot_h = normal.dot(&h).max(Fx::zero());
    let v_dot_h = v.dot(&h).max(Fx::zero());
    let attenuation = Fx::one().div(distance_sqr);
    let radiance = uniform.light.intensity.scale(attenuation);
    let alpha_roughness = roughness.mul(roughness);
    let alpha2 = alpha_roughness.mul(alpha_roughness);
    let d_term = distribution_factor(n_dot_h, alpha2);
    let v_term = geom_smith_factor(n_dot_l, roughness).mul(geom_smith_factor(n_dot_v, roughness));
    let f_term = fresnel(v_dot_h, f0);
    let diffuse = albedo.scale(Fx::one().div(Fx::from_bits(PI_BITS)));
    let specular = f_term.scale(v_term).scale(d_term).scale(Fx::from_bits(16384));
    let ambient = Vector3::new(
        Fx::from_bits(AMBIENT_BITS),
        Fx::from_bits(AMBIENT_BITS),
        Fx::from_bits(AMBIENT_BITS),
    ).scale(ao);
    let mut color = diffuse.add(specular).add(emission);
    color = color.scale(n_dot_l).mul(radiance);
    color = color.add(emission).add(ambient);
    let cx = color.x.clamp(Fx::zero(), Fx::one());
    let cy = color.y.clamp(Fx::zero(), Fx::one());
    let cz = color.z.clamp(Fx::zero(), Fx::one());
    Vector4::new(cx, cy, cz, Fx::one())
}

/// The ambient-occlusion factor a fragment samples.
pub open spec fn s_occlusion(var: VaryingS, u: UniformS) -> int {
    u.ao_tex.pixels[tex_slot(u.ao_tex, var.tex_coord.x, var.tex_coord.y)].x
}

/// Whether a fragment faces the light, so the early-out does not
/// fire.
pub open spec fn s_lit(var: VaryingS, u: UniformS) -> bool {
    v3_dot(
        v3_normalize(var.normal),
        v3_normalize(v3_sub(u.light.transform.position, var.position)),
    ) > 0
}

/// A lit fragment is at least as bright as its ambient floor: with
/// texture channels in `[0, 1]` and a non-negative light intensity,
/// every color channel of a fragment that faces the light is at
/// least the ambient color scaled by the sampled occlusion. With
/// any positive occlusion, a lit pixel is never black.
#[verifier::rlimit(100)]
pub proof fn lemma_lit_fragment_ambient_floor(var: VaryingS, u: UniformS)
    requires
        uniform_wf(u),
        tex_channels_bounded(u.ao_tex),
        tex_channels_bounded(u.emissive_tex),
        tex_channels_bounded(u.albedo_tex),
        tex_channels_bounded(u.metal_roughness_tex),
        0 <= u.light.intensity.x,
        0 <= u.light.intensity.y,
        0 <= u.light.intensity.z,
        s_lit(var, u),
    ensures
        s_fragment_shader(var, u).x >= fmul(AMBIENT_BITS as int, s_occlusion(var, u)),
        s_fragment_shader(var, u).y >= fmul(AMBIENT_BITS as int, s_occlusion(var, u)),
        s_fragment_shader(var, u).z >= fmul(AMBIENT_BITS as int, s_occlusion(var, u)),
        s_fragment_shader(var, u).x <= FX_SCALE as int,
        s_fragment_shader(var, u).y <= FX_SCALE as int,
        s_fragment_shader(var, u).z <= FX_SCALE as int,
{
    reveal(s_fragment_shader);
    let s = FX_SCALE as int;
    let uv = var.tex_coord;
    crate::texture::lemma_tex_slot_in_bounds(u.ao_tex, uv.x, uv.y);
    crate::texture::lemma_tex_slot_in_bounds(u.emissive_tex, uv.x, uv.y);
    crate::texture::lemma_tex_slot_in_bounds(u.albedo_tex, uv.x, uv.y);
    crate::texture::lemma_tex_slot_in_bounds(u.metal_roughness_tex, uv.x, uv.y);
    let ao = u.ao_tex.pixels[tex_slot(u.ao_tex, uv.x, uv.y)].x;
    let emission = v4_xyz(u.emissive_tex.pixels[tex_slot(u.emissive_tex, uv.x, uv.y)]);
    let albedo = v4_xyz(u.albedo_tex.pixels[tex_slot(u.albedo_tex, uv.x, uv.y)]);
    let mr = u.metal_roughness_tex.pixels[tex_slot(u.metal_roughness_tex, uv.x, uv.y)];
    let roughness = mr.y;
    let metallic = mr.z;

    // The base reflectance stays inside [0, 1].
    let f0base = Vec3S { x: F0_BITS as int, y: F0_BITS as int, z: F0_BITS as int };
    crate::fixed::lemma_fmul_nonneg(F0_BITS as int, fsub(s, metallic));
    crate::fixed::lemma_fmul_le_right(F0_BITS as int, fsub(s, metallic));
    crate::fixed::lemma_fmul_nonneg(albedo.x, metallic);
    crate::fixed::lemma_fmul_nonneg(albedo.y, metallic);
    crate::fixed::lemma_fmul_nonneg(albedo.z, metallic);
    crate::fixed::lemma_fmul_le_right(albedo.x, metallic);
    crate::fixed::lemma_fmul_le_right(albedo.y, metallic);
    crate::fixed::lemma_fmul_le_right(albedo.z, metallic);
    let f0 = v3_add(v3_scale(f0base, fsub(s, metallic)), v3_scale(albedo, metallic));
    assert(0 <= f0.x <= s && 0 <= f0.y <= s && 0 <= f0.z <= s);

    // The specular term is never negative.
    let normal = v3_normalize(var.normal);
    let v = v3_neg(var.position);
    let l0 = v3_sub(u.light.transform.position, var.position);
    let l = v3_normalize(l0);
    let h = v3_normalize(v3_add(v, l));
    let n_dot_l = v3_dot(normal, l);
    let n_dot_v = s_max0(v3_dot(normal, v));
    let n_dot_h = s_max0(v3_dot(normal, h));
    let v_dot_h = s_max0(v3_dot(v, h));
    let alpha_roughness = fmul(roughness, roughness);
    crate::fixed::lemma_fmul_square_nonneg(alpha_roughness);
    let alpha2 = fmul(alpha_roughness, alpha_roughness);
    lemma_distribution_factor_nonneg(n_dot_h, alpha2);
    lemma_geom_smith_factor_nonneg(n_dot_l, roughness);
    lemma_geom_smith_factor_nonneg(n_dot_v, roughness);
    crate::fixed::lemma_fmul_nonneg(
        s_geom_smith_factor(n_dot_l, roughness),
        s_geom_smith_factor(n_dot_v, roughness),
    );
    let d_term = s_distribution_factor(n_dot_h, alpha2);
    let v_term = fmul(s_geom_smith_factor(n_dot_l, roughness), s_geom_smith_factor(n_dot_v, roughness));
    lemma_fresnel_nonneg(v_dot_h, f0);
    let f_term = s_fresnel(v_dot_h, f0);
    crate::fixed::lemma_fmul_nonneg(f_term.x, v_term);
    crate::fixed::lemma_fmul_nonneg(f_term.y, v_term);
    crate::fixed::lemma_fmul_nonneg(f_term.z, v_term);
    crate::fixed::lemma_fmul_nonneg(fmul(f_term.x, v_term), d_term);
    crate::fixed::lemma_fmul_nonneg(fmul(f_term.y, v_term), d_term);
    crate::fixed::lemma_fmul_nonneg(fmul(f_term.z, v_term), d_term);
    crate::fixed::lemma_fmul_nonneg(fmul(fmul(f_term.x, v_term), d_term), 16384);
    crate::fixed::lemma_fmul_nonneg(fmul(fmul(f_term.y, v_term), d_term), 16384);
    crate::fixed::lemma_fmul_nonneg(fmul(fmul(f_term.z, v_term), d_term), 16384);

    // The diffuse term and the light's falloff are never negative.
    crate::fixed::lemma_fdiv_nonneg(s, PI_BITS as int);
    crate::fixed::lemma_fmul_nonneg(albedo.x, fdiv(s, PI_BITS as int));
    crate::fixed::lemma_fmul_nonneg(albedo.y, fdiv(s, PI_BITS as int));
    crate::fixed::lemma_fmul_nonneg(albedo.z, fdiv(s, PI_BITS as int));
    crate::fixed::lemma_fmul_square_nonneg(l0.x);
    crate::fixed::lemma_fmul_square_nonneg(l0.y);
    crate::fixed::lemma_fmul_square_nonneg(l0.z);
    let distance_sqr = v3_length_squared(l0);
    crate::fixed::lemma_fdiv_nonneg(s, distance_sqr);
    let attenuation = fdiv(s, distance_sqr);
    crate::fixed::lemma_fmul_nonneg(u.light.intensity.x, attenuation);
    crate::fixed::lemma_fmul_nonneg(u.light.intensity.y, attenuation);
    crate::fixed::lemma_fmul_nonneg(u.light.intensity.z, attenuation);
    let radiance = v3_scale(u.light.intensity, attenuation);

    // The direct light scales non-negative color by non-negative
    // weights, so the ambient floor survives the final sums.
    let diffuse = v3_scale(albedo, fdiv(s, PI_BITS as int));
    let specular = v3_scale(v3_scale(v3_scale(f_term, v_term), d_term), 16384);
    let color0 = v3_add(v3_add(diffuse, specular), emission);
    crate::fixed::lemma_fmul_nonneg(color0.x, n_dot_l);
    crate::fixed::lemma_fmul_nonneg(color0.y, n_dot_l);
    crate::fixed::lemma_fmul_nonneg(color0.z, n_dot_l);
    let scaled = v3_scale(color0, n_dot_l);
    crate::fixed::lemma_fmul_nonneg(scaled.x, radiance.x);
    crate::fixed::lemma_fmul_nonneg(scaled.y, radiance.y);
    crate::fixed::lemma_fmul_nonneg(scaled.z, radiance.z);
    crate::fixed::lemma_fmul_nonneg(AMBIENT_BITS as int, ao);
    crate::fixed::lemma_fmul_le_right(AMBIENT_BITS as int, ao);
}

/// A triangle faces away when the clip-space cross product of its
/// edges points into the screen.
pub open spec fn s_is_back_face(p0: Vec4S, p1: Vec4S, p2: Vec4S) -> bool {
    v3_cross(v4_xyz(v4_sub(p1, p0)), v4_xyz(v4_sub(p2, p0))).z < 0
}

/// The back-face test, run on clip-space positions before the
/// divide.
pub fn is_back_face(vertices: &[Vector4]) -> (r: bool)
    requires
        vertices@.len() == 3,
    ensures
        r == s_is_back_face(vertices@[0]@, vertices@[1]@, vertices@[2]@),
{
    let edge1 = vertices[1].sub(vertices[0]).xyz();
    let edge2 = vertices[2].sub(vertices[0]).xyz();
    let normal = edge1.cross(&edge2);
    normal.z.lt(Fx::zero())
}

/// The perspective divide; the reciprocal of `w` is retained in the
/// `w` slot for perspective-correct interpolation later.
pub open spec fn s_perspective_divide(v: Vec4S) -> Vec4S {
    Vec4S {
        x: fdiv(v.x, v.w),
        y: fdiv(v.y, v.w),
        z: fdiv(v.z, v.w),
        w: fdiv(FX_SCALE as int, v.w),
    }
}

/// The perspective divide.
pub fn perspective_divide(vertex: Vector4) -> (r: Vector4)
    ensures
        r@ == s_perspective_divide(vertex@),
{
    Vector4::new(
        vertex.x.div(vertex.w),
        vertex.y.div(vertex.w),
        vertex.z.div(vertex.w),
        Fx::one().div(vertex.w),
    )
}

/// The viewport map: `[-1, 1]` coordinates to pixels, with row zero
/// at the top.
pub open spec fn s_viewport(v: Vec4S, width: int, height: int) -> Vec4S {
    let hw = fdiv(width, 2 * FX_SCALE as int);
    let hh = fdiv(height, 2 * FX_SCALE as int);
    Vec4S { x: fadd(fmul(v.x, hw), hw), y: fsub(hh, fmul(v.y, hh)), z: v.z, w: v.w }
}

/// The viewport map.
pub fn viewport_transform(vertex: Vector4, width: Fx, height: Fx) -> (r: Vector4)
    ensures
        r@ == s_viewport(vertex@, width@, height@),
{
    let hw = width.div(Fx::from_int(2));
    let hh = height.div(Fx::from_int(2));
    Vector4::new(vertex.x.mul(hw).add(hw), hh.sub(vertex.y.mul(hh)), vertex.z, vertex.w)
}

/// The determinant of the two-edge-vector solve; the triangle's
/// screen projection is treated as degenerate when it vanishes.
pub open spec fn s_bary_denom(v0: Vec4S, v1: Vec4S, v2: Vec4S) -> int {
    let e0 = Vec2S { x: fsub(v1.x, v0.x), y: fsub(v1.y, v0.y) };
    let e1 = Vec2S { x: fsub(v2.x, v0.x), y: fsub(v2.y, v0.y) };
    let d00 = v2_dot(e0, e0);
    let d01 = v2_dot(e0, e1);
    let d11 = v2_dot(e1, e1);
    fsub(fmul(d00, d11), fmul(d01, d01))
}

/// Barycentric coordinates of a point against a triangle's screen
/// projection, by the two-edge-vector solve. A singular system
/// yields the sentinel `(-1, -1, -1)`, which fails the inside test.
#[verifier::opaque]
pub open spec fn s_bary(v0: Vec4S, v1: Vec4S, v2: Vec4S, px: int, py: int) -> Vec3S {
    let e0 = Vec2S { x: fsub(v1.x, v0.x), y: fsub(v1.y, v0.y) };
    let e1 = Vec2S { x: fsub(v2.x, v0.x), y: fsub(v2.y, v0.y) };
    let e2 = Vec2S { x: fsub(px, v0.x), y: fsub(py, v0.y) };
    let d00 = v2_dot(e0, e0);
    let d01 = v2_dot(e0, e1);
    let d11 = v2_dot(e1, e1);
    let d20 = v2_dot(e2, e0);
    let d21 = v2_dot(e2, e1);
    let denom = s_bary_denom(v0, v1, v2);
    if fabs(denom) < 1 {
        Vec3S { x: -(FX_SCALE as int), y: -(FX_SCALE as int), z: -(FX_SCALE as int) }
    } else {
        let v = fdiv(fsub(fmul(d11, d20), fmul(d01, d21)), denom);
        let w = fdiv(fsub(fmul(d00, d21), fmul(d01, d20)), denom);
        Vec3S { x: fsub(fsub(FX_SCALE as int, v), w), y: v, z: w }
    }
}

/// Barycentric coordinates against the triangle's screen projection.
pub fn barycentric(v0: Vector4, v1: Vector4, v2: Vector4, p: Vector4) -> (r: Vector3)
    ensures
        r@ == s_bary(v0@, v1@, v2@, p@.x, p@.y),
{
    proof {
        reveal(s_bary);
    }
    let e0 = Vector2::new(v1.x.sub(v0.x), v1.y.sub(v0.y));
    let e1 = Vector2::new(v2.x.sub(v0.x), v2.y.sub(v0.y));
    let e2 = Vector2::new(p.x.sub(v0.x), p.y.sub(v0.y));
    let d00 = e0.dot(e0);
    let d01 = e0.dot(e1);
    let d11 = e1.dot(e1);
    let d20 = e2.dot(e0);
    let d21 = e2.dot(e1);
    let denom = d00.mul(d11).sub(d01.mul(d01));
    if denom.abs().lt(Fx::from_bits(1)) {
        let minus_one = Fx::from_int(-1);
        return Vector3::new(minus_one, minus_one, minus_one);
    }
    let v = d11.mul(d20).sub(d01.mul(d21)).div(denom);
    let w = d00.mul(d21).sub(d01.mul(d20)).div(denom);
    Vector3::new(Fx::one().sub(v).sub(w), v, w)
}

/// The views of a run of screen positions.
pub open spec fn v4_views(vs: Seq<Vector4>) -> Seq<Vec4S> {
    Seq::new(vs.len(), |i: int| vs[i]@)
}

/// The bounding box of the first `n` positions, folded the way the
/// scan builds it; empty input leaves the extremes.
pub open spec fn s_box2d_upto(vs: Seq<Vec4S>, n: int) -> Box2DS
    decreases n,
{
    if n <= 0 {
        Box2DS {
            min: Vec2S { x: FX_MAX as int, y: FX_MAX as int },
            max: Vec2S { x: FX_MIN as int, y: FX_MIN as int },
        }
    } else {
        let b = s_box2d_upto(vs, n - 1);
        let v = vs[n - 1];
        Box2DS {
            min: Vec2S {
                x: crate::fixed::fmin(b.min.x, v.x),
                y: crate::fixed::fmin(b.min.y, v.y),
            },
            max: Vec2S {
                x: crate::fixed::fmax(b.max.x, v.x),
                y: crate::fixed::fmax(b.max.y, v.y),
            },
        }
    }
}

/// The bounding box of a run of screen positions.
pub open spec fn s_box2d(vs: Seq<Vec4S>) -> Box2DS {
    s_box2d_upto(vs, vs.len() as int)
}

/// The axis-aligned bounding box of screen positions.
pub fn get_box2d(vertices: &[Vector4]) -> (r: Box2D)
    ensures
        r@ == s_box2d(v4_views(vertices@)),
{
    let mut min = Vector2::new(Fx::from_bits(FX_MAX), Fx::from_bits(FX_MAX));
    let mut max = Vector2::new(Fx::from_bits(FX_MIN), Fx::from_bits(FX_MIN));
    let mut i: usize = 0;
    while i < vertices.len()
        invariant
            i <= vertices@.len(),
            (Box2DS { min: min@, max: max@ }) == s_box2d_upto(v4_views(vertices@), i as int),
        decreases vertices@.len() - i,
    {
        min.x = min.x.min(vertices[i].x);
        min.y = min.y.min(vertices[i].y);
        max.x = max.x.max(vertices[i].x);
        max.y = max.y.max(vertices[i].y);
        i = i + 1;
    }
    Box2D { min, max }
}

/// Everything the scan loop needs of one triangle: screen positions
/// with retained reciprocal `w`, varying state, the cull verdict,
/// and the clamped pixel bounds of the scan.
pub struct TriS {
    pub culled: bool,
    pub p0: Vec4S,
    pub p1: Vec4S,
    pub p2: Vec4S,
    pub var0: VaryingS,
    pub var1: VaryingS,
    pub var2: VaryingS,
    pub x0: int,
    pub x1: int,
    pub y0: int,
    pub y1: int,
}

/// The whole per-triangle setup: vertex stage, cull verdict,
/// perspective divide, viewport map, and the clamped scan bounds.
#[verifier::opaque]
pub open spec fn s_setup(v0: VertexS, v1: VertexS, v2: VertexS, u: UniformS, w: int, h: int) -> TriS {
    let s = FX_SCALE as int;
    let o0 = s_vertex_shader(v0, u);
    let o1 = s_vertex_shader(v1, u);
    let o2 = s_vertex_shader(v2, u);
    let culled = s_is_back_face(o0.position, o1.position, o2.position);
    let wfx = sat((w - 1) * s);
    let hfx = sat((h - 1) * s);
    let p0 = s_viewport(s_perspective_divide(o0.position), wfx, hfx);
    let p1 = s_viewport(s_perspective_divide(o1.position), wfx, hfx);
    let p2 = s_viewport(s_perspective_divide(o2.position), wfx, hfx);
    let bbox = s_box2d(seq![p0, p1, p2]);
    let minx = crate::fixed::fmax(bbox.min.x, 0);
    let miny = crate::fixed::fmax(bbox.min.y, 0);
    let maxx = crate::fixed::fmin(bbox.max.x, wfx);
    let maxy = crate::fixed::fmin(bbox.max.y, hfx);
    TriS {
        culled,
        p0,
        p1,
        p2,
        var0: o0.varying,
        var1: o1.varying,
        var2: o2.varying,
        x0: crate::fixed::fx_to_u32(minx),
        x1: crate::fixed::fx_to_u32(fadd(maxx, s)),
        y0: crate::fixed::fx_to_u32(miny),
        y1: crate::fixed::fx_to_u32(fadd(maxy, s)),
    }
}

/// The sample point of pixel `c` along one axis: its center.
pub open spec fn s_center(c: int) -> int {
    fadd(sat(c * (FX_SCALE as int)), (FX_SCALE as int) / 2)
}

/// Affine interpolation of a scalar by barycentric weights.
pub open spec fn s_interp(a: int, b: int, c: int, bary: Vec3S) -> int {
    fadd(fadd(fmul(a, bary.x), fmul(b, bary.y)), fmul(c, bary.z))
}

/// Whether the scan visits pixel `(x, y)`.
pub open spec fn s_in_box(t: TriS, x: int, y: int) -> bool {
    t.x0 <= x < t.x1 && t.y0 <= y < t.y1
}

/// The barycentric weights at pixel `(x, y)`'s center.
pub open spec fn s_pixel_bary(t: TriS, x: int, y: int) -> Vec3S {
    s_bary(t.p0, t.p1, t.p2, s_center(x), s_center(y))
}

/// The depth the triangle interpolates at pixel `(x, y)`: affine in
/// the already-divided vertex depths.
pub open spec fn s_pixel_depth(t: TriS, x: int, y: int) -> int {
    s_interp(t.p0.z, t.p1.z, t.p2.z, s_pixel_bary(t, x, y))
}

/// Whether the triangle writes pixel `(x, y)`: the scan visits it,
/// the weights are all non-negative, the depth lands in `[0, 1]`,
/// and the depth test passes — nearer or tied wins against the
/// stored depth.
pub open spec fn s_pixel_hit(t: TriS, x: int, y: int, stored_depth: int) -> bool {
    let bary = s_pixel_bary(t, x, y);
    &&& s_in_box(t, x, y)
    &&& bary.x >= 0 && bary.y >= 0 && bary.z >= 0
    &&& 0 <= s_pixel_depth(t, x, y) <= FX_SCALE as int
    &&& s_pixel_depth(t, x, y) <= stored_depth
}

/// The perspective-corrected varying state at pixel `(x, y)`.
#[verifier::opaque]
pub open spec fn s_pixel_varying(t: TriS, x: int, y: int) -> VaryingS {
    let s = FX_SCALE as int;
    let bary = s_pixel_bary(t, x, y);
    let fw = s_interp(t.p0.w, t.p1.w, t.p2.w, bary);
    let bc = v3_scale(v3_mul(bary, Vec3S { x: t.p0.w, y: t.p1.w, z: t.p2.w }), fdiv(s, fw));
    VaryingS {
        tex_coord: Vec2S {
            x: fadd(
                fadd(
                    fmul(bc.x, t.var0.tex_coord.x),
                    fmul(bc.y, t.var1.tex_coord.x),
                ),
                fmul(bc.z, t.var2.tex_coord.x),
            ),
            y: fadd(
                fadd(
                    fmul(bc.x, t.var0.tex_coord.y),
                    fmul(bc.y, t.var1.tex_coord.y),
                ),
                fmul(bc.z, t.var2.tex_coord.y),
            ),
        },
        normal: v3_add(
            v3_add(v3_scale(t.var0.normal, bc.x), v3_scale(t.var1.normal, bc.y)),
            v3_scale(t.var2.normal, bc.z),
        ),
        position: v3_add(
            v3_add(v3_scale(t.var0.position, bc.x), v3_scale(t.var1.position, bc.y)),
            v3_scale(t.var2.position, bc.z),
        ),
    }
}

/// The packed color the triangle shades at pixel `(x, y)`.
pub open spec fn s_pixel_color(t: TriS, u: UniformS, x: int, y: int) -> int {
    pack_color(s_fragment_shader(s_pixel_varying(t, x, y), u))
}

/// The color buffer after one triangle: a culled triangle leaves it
/// unchanged; otherwise every written pixel carries its shaded
/// color.
pub open spec fn s_draw_colors(fb: FrameBufferS, t: TriS, u: UniformS) -> Seq<u32> {
    if t.culled {
        fb.colors
    } else {
        Seq::new(
            fb.colors.len(),
            |i: int|
                if s_pixel_hit(t, i % fb.width, i / fb.width, fb.depth[i]) {
                    s_pixel_color(t, u, i % fb.width, i / fb.width) as u32
                } else {
                    fb.colors[i]
                },
        )
    }
}

/// The depth buffer after one triangle: every written pixel carries
/// its interpolated depth, written before shading.
pub open spec fn s_draw_depth(fb: FrameBufferS, t: TriS) -> Seq<int> {
    if t.culled {
        fb.depth
    } else {
        Seq::new(
            fb.depth.len(),
            |i: int|
                if s_pixel_hit(t, i % fb.width, i / fb.width, fb.depth[i]) {
                    s_pixel_depth(t, i % fb.width, i / fb.width)
                } else {
                    fb.depth[i]
                },
        )
    }
}

/// The frame after one triangle: the color and depth buffers under
/// the scan's pixel rule, the dimensions untouched.
pub open spec fn s_draw_step(
    fb: FrameBufferS,
    v0: VertexS,
    v1: VertexS,
    v2: VertexS,
    u: UniformS,
) -> FrameBufferS {
    let t = s_setup(v0, v1, v2, u, fb.width, fb.height);
    FrameBufferS {
        width: fb.width,
        height: fb.height,
        colors: s_draw_colors(fb, t, u),
        depth: s_draw_depth(fb, t),
    }
}

/// The frame after the first `k` triangles of an indexed mesh, drawn
/// in submission order.
pub open spec fn s_draw_mesh_upto(
    fb: FrameBufferS,
    vertices: Seq<Vertex>,
    indices: Seq<usize>,
    u: UniformS,
    k: int,
) -> FrameBufferS
    decreases k,
{
    if k <= 0 {
        fb
    } else {
        let prev = s_draw_mesh_upto(fb, vertices, indices, u, k - 1);
        s_draw_step(
            prev,
            vertices[indices[3 * (k - 1)] as int]@,
            vertices[indices[3 * (k - 1) + 1] as int]@,
            vertices[indices[3 * (k - 1) + 2] as int]@,
            u,
        )
    }
}

/// Whether the scan has already passed pixel `(xx, yy)` when it
/// stands at column `x` of row `y`.
spec fn s_scan_done(t: TriS, xx: int, yy: int, x: int, y: int) -> bool {
    s_in_box(t, xx, yy) && (yy < y || (yy == y && xx < x))
}

/// The state of one pixel mid-scan: passed pixels carry the written
/// color and depth exactly when the triangle hits them; pixels not
/// yet passed are untouched.
spec fn s_scan_at(
    fb0: FrameBufferS,
    cur: FrameBufferS,
    t: TriS,
    u: UniformS,
    xx: int,
    yy: int,
    x: int,
    y: int,
) -> bool {
    let idx = fb_index(fb0, xx, yy);
    if s_scan_done(t, xx, yy, x, y) {
        &&& (s_pixel_hit(t, xx, yy, fb0.depth[idx]) ==> cur.colors[idx] == s_pixel_color(
            t,
            u,
            xx,
            yy,
        ) as u32 && cur.depth[idx] == s_pixel_depth(t, xx, yy))
        &&& (!s_pixel_hit(t, xx, yy, fb0.depth[idx]) ==> cur.colors[idx] == fb0.colors[idx]
            && cur.depth[idx] == fb0.depth[idx])
    } else {
        cur.colors[idx] == fb0.colors[idx] && cur.depth[idx] == fb0.depth[idx]
    }
}

/// The whole mid-scan state.
spec fn s_scan_inv(
    fb0: FrameBufferS,
    cur: FrameBufferS,
    t: TriS,
    u: UniformS,
    x: int,
    y: int,
) -> bool {
    forall|xx: int, yy: int| #![trigger fb_index(fb0, xx, yy)]
        fb_in_bounds(fb0, xx, yy) ==> s_scan_at(fb0, cur, t, u, xx, yy, x, y)
}

/// Distinct pixels use distinct buffer slots.
proof fn lemma_fb_index_ne(fb: FrameBufferS, x1: int, y1: int, x2: int, y2: int)
    requires
        fb_in_bounds(fb, x1, y1),
        fb_in_bounds(fb, x2, y2),
        !(x1 == x2 && y1 == y2),
    ensures
        fb_index(fb, x1, y1) != fb_index(fb, x2, y2),
{
    if y1 == y2 {
    } else {
        assert(y1 * fb.width + x1 != y2 * fb.width + x2) by (nonlinear_arith)
            requires
                y1 != y2,
                0 <= x1 < fb.width,
                0 <= x2 < fb.width,
        ;
    }
}

/// A scaled pixel bound, floored back to pixels, stays within the
/// grid dimension it was clamped to.
proof fn lemma_to_u32_le(a: int, w: int)
    requires
        a <= w * (FX_SCALE as int),
        1 <= w <= 0x1_0000_0000,
    ensures
        crate::fixed::fx_to_u32(a) <= w,
{
    if a >= 0 {
        assert(a <= (FX_SCALE as int) * w) by (nonlinear_arith)
            requires
                a <= w * (FX_SCALE as int),
        ;
        vstd::arithmetic::div_mod::lemma_multiply_divide_le(a, FX_SCALE as int, w);
    }
}

/// Rasterize one triangle: vertex stage, back-face cull, perspective
/// divide, viewport map, then a bounding-box scan with barycentric
/// coverage, a nearer-or-tied depth test, depth written before
/// shading, and perspective-correct interpolation into the fragment
/// stage.
#[verifier::rlimit(100)]
pub fn draw_triangle(framebuffer: &mut FrameBuffer, vertices: &[Vertex], uniform: &Uniform)
    requires
        vertices@.len() == 3,
        uniform_wf(uniform@),
        fb_wf(old(framebuffer)@),
        1 <= old(framebuffer)@.width <= 0x1_0000_0000,
        1 <= old(framebuffer)@.height <= 0x1_0000_0000,
    ensures
        fb_wf(final(framebuffer)@),
        final(framebuffer)@.width == old(framebuffer)@.width,
        final(framebuffer)@.height == old(framebuffer)@.height,
        final(framebuffer)@.colors =~= s_draw_colors(
            old(framebuffer)@,
            s_setup(
                vertices@[0]@,
                vertices@[1]@,
                vertices@[2]@,
                uniform@,
                old(framebuffer)@.width,
                old(framebuffer)@.height,
            ),
            uniform@,
        ),
        final(framebuffer)@.depth =~= s_draw_depth(
            old(framebuffer)@,
            s_setup(
                vertices@[0]@,
                vertices@[1]@,
                vertices@[2]@,
                uniform@,
                old(framebuffer)@.width,
                old(framebuffer)@.height,
            ),
        ),
{
    proof {
        reveal(s_setup);
    }
    let ghost fb0 = framebuffer@;
    let ghost t = s_setup(
        vertices@[0]@,
        vertices@[1]@,
        vertices@[2]@,
        uniform@,
        fb0.width,
        fb0.height,
    );

    let o0 = vertex_shader(&vertices[0], uniform);
    let o1 = vertex_shader(&vertices[1], uniform);
    let o2 = vertex_shader(&vertices[2], uniform);
    let gl: [Vector4; 3] = [o0.position, o1.position, o2.position];
    if is_back_face(&gl) {
        proof {
            assert(t.culled);
        }
        return;
    }
    let width = framebuffer.width();
    let height = framebuffer.height();
    let wfx = Fx::from_int((width - 1) as i64);
    let hfx = Fx::from_int((height - 1) as i64);
    let s0 = viewport_transform(perspective_divide(gl[0]), wfx, hfx);
    let s1 = viewport_transform(perspective_divide(gl[1]), wfx, hfx);
    let s2 = viewport_transform(perspective_divide(gl[2]), wfx, hfx);
    let screen: [Vector4; 3] = [s0, s1, s2];
    proof {
        assert(s0@ == t.p0);
        assert(s1@ == t.p1);
        assert(s2@ == t.p2);
        assert(v4_views(screen@) =~= seq![t.p0, t.p1, t.p2]);
    }
    let mut bbox = get_box2d(&screen);
    bbox.min.x = bbox.min.x.max(Fx::zero());
    bbox.min.y = bbox.min.y.max(Fx::zero());
    bbox.max.x = bbox.max.x.min(wfx);
    bbox.max.y = bbox.max.y.min(hfx);
    let xs: u32 = bbox.min.x.to_u32_sat();
    let xe: u32 = bbox.max.x.add(Fx::one()).to_u32_sat();
    let ys: u32 = bbox.min.y.to_u32_sat();
    let ye: u32 = bbox.max.y.add(Fx::one()).to_u32_sat();
    proof {
        assert(xs as int == t.x0);
        assert(xe as int == t.x1);
        assert(ys as int == t.y0);
        assert(ye as int == t.y1);
        lemma_to_u32_le(fadd(crate::fixed::fmin(s_box2d(seq![t.p0, t.p1, t.p2]).max.x, sat(
            (fb0.width - 1) * (FX_SCALE as int),
        )), FX_SCALE as int), fb0.width);
        lemma_to_u32_le(fadd(crate::fixed::fmin(s_box2d(seq![t.p0, t.p1, t.p2]).max.y, sat(
            (fb0.height - 1) * (FX_SCALE as int),
        )), FX_SCALE as int), fb0.height);
        assert(t.x1 <= fb0.width);
        assert(t.y1 <= fb0.height);
    }
    let mut y: u32 = ys;
    while y < ye
        invariant
            vertices@.len() == 3,
            uniform_wf(uniform@),
            fb_wf(framebuffer@),
            fb_wf(fb0),
            framebuffer@.width == fb0.width,
            framebuffer@.height == fb0.height,
            framebuffer@.colors.len() == fb0.colors.len(),
            framebuffer@.depth.len() == fb0.depth.len(),
            1 <= fb0.width <= 0x1_0000_0000,
            1 <= fb0.height <= 0x1_0000_0000,
            !t.culled,
            t == s_setup(
                vertices@[0]@,
                vertices@[1]@,
                vertices@[2]@,
                uniform@,
                fb0.width,
                fb0.height,
            ),
            screen@[0]@ == t.p0,
            screen@[1]@ == t.p1,
            screen@[2]@ == t.p2,
            o0.varying@ == t.var0,
            o1.varying@ == t.var1,
            o2.varying@ == t.var2,
            xs as int == t.x0,
            xe as int == t.x1,
            ys as int == t.y0,
            ye as int == t.y1,
            t.x1 <= fb0.width,
            t.y1 <= fb0.height,
            ys <= y,
            s_scan_inv(fb0, framebuffer@, t, uniform@, t.x0, y as int),
        decreases ye - y,
    {
        let mut x: u32 = xs;
        while x < xe
            invariant
                vertices@.len() == 3,
                uniform_wf(uniform@),
                fb_wf(framebuffer@),
                fb_wf(fb0),
                framebuffer@.width == fb0.width,
                framebuffer@.height == fb0.height,
                framebuffer@.colors.len() == fb0.colors.len(),
                framebuffer@.depth.len() == fb0.depth.len(),
                1 <= fb0.width <= 0x1_0000_0000,
                1 <= fb0.height <= 0x1_0000_0000,
                !t.culled,
                t == s_setup(
                    vertices@[0]@,
                    vertices@[1]@,
                    vertices@[2]@,
                    uniform@,
                    fb0.width,
                    fb0.height,
                ),
                screen@[0]@ == t.p0,
                screen@[1]@ == t.p1,
                screen@[2]@ == t.p2,
                o0.varying@ == t.var0,
                o1.varying@ == t.var1,
                o2.varying@ == t.var2,
                xs as int == t.x0,
                xe as int == t.x1,
                ys as int == t.y0,
                ye as int == t.y1,
                t.x1 <= fb0.width,
                t.y1 <= fb0.height,
                ys <= y < ye,
                xs <= x,
                s_scan_inv(fb0, framebuffer@, t, uniform@, x as int, y as int),
            decreases xe - x,
        {
            let ghost cur0 = framebuffer@;
            let ghost hit = s_pixel_hit(
                t,
                x as int,
                y as int,
                fb0.depth[fb_index(fb0, x as int, y as int)],
            );
            proof {
                assert(fb_in_bounds(fb0, x as int, y as int));
                assert(s_scan_at(fb0, cur0, t, uniform@, x as int, y as int, x as int, y as int));
                assert(!s_scan_done(t, x as int, y as int, x as int, y as int));
            }
            let cx = Fx::from_int(x as i64).add(Fx::half());
            let cy = Fx::from_int(y as i64).add(Fx::half());
            let frag_pos = Vector4::new(cx, cy, Fx::zero(), Fx::one());
            let bary = barycentric(screen[0], screen[1], screen[2], frag_pos);
            proof {
                assert(bary@ == s_pixel_bary(t, x as int, y as int));
            }
            if bary.x.ge(Fx::zero()) && bary.y.ge(Fx::zero()) && bary.z.ge(Fx::zero()) {
                let z = screen[0].z.mul(bary.x).add(screen[1].z.mul(bary.y)).add(
                    screen[2].z.mul(bary.z),
                );
                proof {
                    assert(z@ == s_pixel_depth(t, x as int, y as int));
                }
                if z.ge(Fx::zero()) && z.le(Fx::one()) {
                    let stored = framebuffer.get_depth(x, y);
                    if z.le(stored) {
                        proof {
                            assert(hit);
                        }
                        framebuffer.set_depth(x, y, z);
                        let fw = screen[0].w.mul(bary.x).add(screen[1].w.mul(bary.y)).add(
                            screen[2].w.mul(bary.z),
                        );
                        let bc = bary.mul(
                            Vector3::new(screen[0].w, screen[1].w, screen[2].w),
                        ).scale(Fx::one().div(fw));
                        let v0 = o0.varying;
                        let v1 = o1.varying;
                        let v2 = o2.varying;
                        let tex_coord = Vector2::new(
                            bc.x.mul(v0.tex_coord.x).add(bc.y.mul(v1.tex_coord.x)).add(
                                bc.z.mul(v2.tex_coord.x),
                            ),
                            bc.x.mul(v0.tex_coord.y).add(bc.y.mul(v1.tex_coord.y)).add(
                                bc.z.mul(v2.tex_coord.y),
                            ),
                        );
                        let normal = v0.normal.scale(bc.x).add(v1.normal.scale(bc.y)).add(
                            v2.normal.scale(bc.z),
                        );
                        let position = v0.position.scale(bc.x).add(v1.position.scale(bc.y)).add(
                            v2.position.scale(bc.z),
                        );
                        let varying = Varying { tex_coord, normal, position };
                        proof {
                            reveal(s_pixel_varying);
                            assert(varying@ == s_pixel_varying(t, x as int, y as int));
                        }
                        let frag_color = fragment_shader(&varying, uniform);
                        framebuffer.set_color(x, y, frag_color.to_u32());
                        proof {
                            let idx = fb_index(fb0, x as int, y as int);
                            crate::framebuffer::lemma_fb_index_in_bounds(fb0, x as int, y as int);
                            assert(framebuffer@.colors[idx] as int == s_pixel_color(
                                t,
                                uniform@,
                                x as int,
                                y as int,
                            ));
                            assert(framebuffer@.depth[idx] == s_pixel_depth(t, x as int, y as int));
                        }
                    } else {
                        proof {
                            assert(!hit);
                        }
                    }
                } else {
                    proof {
                        assert(!hit);
                    }
                }
            } else {
                proof {
                    assert(!hit);
                }
            }
            proof {
                assert forall|xx: int, yy: int| #![trigger fb_index(fb0, xx, yy)]
                    fb_in_bounds(fb0, xx, yy) implies s_scan_at(
                    fb0,
                    framebuffer@,
                    t,
                    uniform@,
                    xx,
                    yy,
                    x as int + 1,
                    y as int,
                ) by {
                    crate::framebuffer::lemma_fb_index_in_bounds(fb0, xx, yy);
                    crate::framebuffer::lemma_fb_index_in_bounds(fb0, x as int, y as int);
                    if xx == x as int && yy == y as int {
                        assert(s_scan_at(
                            fb0,
                            framebuffer@,
                            t,
                            uniform@,
                            xx,
                            yy,
                            x as int + 1,
                            y as int,
                        ));
                    } else {
                        lemma_fb_index_ne(fb0, xx, yy, x as int, y as int);
                        assert(s_scan_at(fb0, cur0, t, uniform@, xx, yy, x as int, y as int));
                        assert(s_scan_done(t, xx, yy, x as int + 1, y as int) == s_scan_done(
                            t,
                            xx,
                            yy,
                            x as int,
                            y as int,
                        ));
                    }
                }
            }
            x = x + 1;
        }
        proof {
            assert forall|xx: int, yy: int| #![trigger fb_index(fb0, xx, yy)]
                fb_in_bounds(fb0, xx, yy) implies s_scan_at(
                fb0,
                framebuffer@,
                t,
                uniform@,
                xx,
                yy,
                t.x0,
                y as int + 1,
            ) by {
                assert(s_scan_at(fb0, framebuffer@, t, uniform@, xx, yy, x as int, y as int));
                assert(s_scan_done(t, xx, yy, t.x0, y as int + 1) == s_scan_done(
                    t,
                    xx,
                    yy,
                    x as int,
                    y as int,
                ));
            }
        }
        y = y + 1;
    }
    proof {
        let cur = framebuffer@;
        let w = fb0.width;
        assert forall|i: int| 0 <= i < fb0.colors.len() implies cur.colors[i] == s_draw_colors(
            fb0,
            t,
            uniform@,
        )[i] && cur.depth[i] == s_draw_depth(fb0, t)[i] by {
            let xx = i % w;
            let yy = i / w;
            vstd::arithmetic::div_mod::lemma_mod_bound(i, w);
            vstd::arithmetic::div_mod::lemma_div_pos_is_pos(i, w);
            assert(i < w * fb0.height);
            vstd::arithmetic::div_mod::lemma_multiply_divide_lt(i, w, fb0.height);
            vstd::arithmetic::div_mod::lemma_fundamental_div_mod(i, w);
            assert(fb_in_bounds(fb0, xx, yy));
            assert(fb_index(fb0, xx, yy) == i);
            assert(s_scan_at(fb0, cur, t, uniform@, xx, yy, t.x0, y as int));
            if s_in_box(t, xx, yy) {
                assert(yy < t.y1 <= y as int);
                assert(s_scan_done(t, xx, yy, t.x0, y as int));
            }
        }
        assert(cur.colors =~= s_draw_colors(fb0, t, uniform@));
        assert(cur.depth =~= s_draw_depth(fb0, t));
    }
}

/// For any sample point inside the triangle -- all three weights
/// non-negative -- the barycentric weights sum to exactly one.
pub proof fn lemma_bary_partition_of_unity(v0: Vec4S, v1: Vec4S, v2: Vec4S, px: int, py: int)
    requires
        s_bary(v0, v1, v2, px, py).x >= 0,
        s_bary(v0, v1, v2, px, py).y >= 0,
        s_bary(v0, v1, v2, px, py).z >= 0,
    ensures
        fadd(
            fadd(s_bary(v0, v1, v2, px, py).x, s_bary(v0, v1, v2, px, py).y),
            s_bary(v0, v1, v2, px, py).z,
        ) == FX_SCALE as int,
{
    reveal(s_bary);
    let b = s_bary(v0, v1, v2, px, py);
    assert(b.x == fsub(fsub(FX_SCALE as int, b.y), b.z));
    assert(FX_MIN <= b.y <= FX_MAX);
    assert(FX_MIN <= b.z <= FX_MAX);
}

/// At the triangle's own vertices the solve recovers the exact unit
/// weights: `(1, 0, 0)` at the first vertex, `(0, 1, 0)` at the
/// second, `(0, 0, 1)` at the third.
pub proof fn lemma_bary_at_vertices(v0: Vec4S, v1: Vec4S, v2: Vec4S)
    requires
        fabs(s_bary_denom(v0, v1, v2)) >= 1,
    ensures
        s_bary(v0, v1, v2, v0.x, v0.y) == (Vec3S { x: FX_SCALE as int, y: 0, z: 0 }),
        s_bary(v0, v1, v2, v1.x, v1.y) == (Vec3S { x: 0, y: FX_SCALE as int, z: 0 }),
        s_bary(v0, v1, v2, v2.x, v2.y) == (Vec3S { x: 0, y: 0, z: FX_SCALE as int }),
{
    reveal(s_bary);
    let e0 = Vec2S { x: fsub(v1.x, v0.x), y: fsub(v1.y, v0.y) };
    let e1 = Vec2S { x: fsub(v2.x, v0.x), y: fsub(v2.y, v0.y) };
    let d00 = v2_dot(e0, e0);
    let d01 = v2_dot(e0, e1);
    let d11 = v2_dot(e1, e1);
    let denom = s_bary_denom(v0, v1, v2);
    crate::fixed::lemma_fmul_zero(e0.x);
    crate::fixed::lemma_fmul_zero(e0.y);
    crate::fixed::lemma_fmul_zero(e1.x);
    crate::fixed::lemma_fmul_zero(e1.y);
    crate::fixed::lemma_fmul_zero(d00);
    crate::fixed::lemma_fmul_zero(d01);
    crate::fixed::lemma_fmul_zero(d11);
    crate::fixed::lemma_fdiv_zero(denom);
    crate::fixed::lemma_fdiv_self(denom);
    crate::fixed::lemma_fmul_comm(d11, d00);
    crate::fixed::lemma_fmul_comm(d00, d01);
    crate::fixed::lemma_fmul_comm(e0.x, e1.x);
    crate::fixed::lemma_fmul_comm(e0.y, e1.y);
    crate::fixed::lemma_fmul_comm(d01, d11);
}

/// Exact depth ties favor the later-submitted triangle: once one
/// triangle has written depth `z` at a pixel, a second triangle
/// interpolating the same `z` there still passes the nearer-or-tied
/// test, so its color lands on top.
pub proof fn lemma_depth_tie_later_wins(t1: TriS, t2: TriS, x: int, y: int, stored: int)
    requires
        s_pixel_hit(t1, x, y, stored),
        s_in_box(t2, x, y),
        s_pixel_bary(t2, x, y).x >= 0,
        s_pixel_bary(t2, x, y).y >= 0,
        s_pixel_bary(t2, x, y).z >= 0,
        s_pixel_depth(t2, x, y) == s_pixel_depth(t1, x, y),
    ensures
        s_pixel_hit(t2, x, y, s_pixel_depth(t1, x, y)),
{
}

/// At normal incidence -- `v.h` exactly one -- the Fresnel term is
/// exactly the base reflectance: the fifth-power term vanishes.
pub proof fn lemma_fresnel_at_normal_incidence(f0: Vec3S)
    requires
        crate::fixed::in_range(f0.x),
        crate::fixed::in_range(f0.y),
        crate::fixed::in_range(f0.z),
    ensures
        s_fresnel(FX_SCALE as int, f0) == f0,
{
    crate::fixed::lemma_fmul_zero(0);
    let ones = Vec3S { x: FX_SCALE as int, y: FX_SCALE as int, z: FX_SCALE as int };
    let d = v3_sub(ones, f0);
    crate::fixed::lemma_fmul_zero(d.x);
    crate::fixed::lemma_fmul_zero(d.y);
    crate::fixed::lemma_fmul_zero(d.z);
}

/// Draw every triangle of a mesh, in submission order. The per-frame
/// driver: the window loop hands in the frame buffer and the
/// per-draw uniforms and takes the finished frame back.
pub fn draw_mesh(framebuffer: &mut FrameBuffer, mesh: &crate::mesh::Mesh, uniform: &Uniform)
    requires
        crate::mesh::mesh_indices_wf(mesh.vertices@, mesh.indices@),
        uniform_wf(uniform@),
        fb_wf(old(framebuffer)@),
        1 <= old(framebuffer)@.width <= 0x1_0000_0000,
        1 <= old(framebuffer)@.height <= 0x1_0000_0000,
    ensures
        fb_wf(final(framebuffer)@),
        final(framebuffer)@ == s_draw_mesh_upto(
            old(framebuffer)@,
            mesh.vertices@,
            mesh.indices@,
            uniform@,
            (mesh.indices@.len() as int) / 3,
        ),
{
    let ghost fb0 = framebuffer@;
    let total: usize = mesh.indices.len() / 3;
    proof {
        vstd::arithmetic::div_mod::lemma_fundamental_div_mod(mesh.indices@.len() as int, 3);
    }
    let mut k: usize = 0;
    while k < total
        invariant
            crate::mesh::mesh_indices_wf(mesh.vertices@, mesh.indices@),
            uniform_wf(uniform@),
            k <= total,
            total == mesh.indices@.len() / 3,
            mesh.indices@.len() == 3 * total,
            fb_wf(framebuffer@),
            framebuffer@.width == fb0.width,
            framebuffer@.height == fb0.height,
            1 <= fb0.width <= 0x1_0000_0000,
            1 <= fb0.height <= 0x1_0000_0000,
            framebuffer@ == s_draw_mesh_upto(fb0, mesh.vertices@, mesh.indices@, uniform@, k as int),
        decreases total - k,
    {
        let ghost prev = framebuffer@;
        proof {
            vstd::std_specs::vec::axiom_spec_len(&mesh.indices);
            vstd::std_specs::vec::axiom_spec_len(&mesh.vertices);
        }
        let i0 = mesh.indices[3 * k];
        let i1 = mesh.indices[3 * k + 1];
        let i2 = mesh.indices[3 * k + 2];
        let vertices: [Vertex; 3] = [mesh.vertices[i0], mesh.vertices[i1], mesh.vertices[i2]];
        draw_triangle(framebuffer, &vertices, uniform);
        proof {
            let vs = mesh.vertices@;
            let is = mesh.indices@;
            let t = s_setup(
                vs[is[3 * k as int] as int]@,
                vs[is[3 * k as int + 1] as int]@,
                vs[is[3 * k as int + 2] as int]@,
                uniform@,
                prev.width,
                prev.height,
            );
            assert(framebuffer@.colors =~= s_draw_colors(prev, t, uniform@));
            assert(framebuffer@.depth =~= s_draw_depth(prev, t));
            assert(framebuffer@ == s_draw_step(
                prev,
                vs[is[3 * k as int] as int]@,
                vs[is[3 * k as int + 1] as int]@,
                vs[is[3 * k as int + 2] as int]@,
                uniform@,
            ));
            assert(framebuffer@ == s_draw_mesh_upto(fb0, vs, is, uniform@, k as int + 1));
        }
        k = k + 1;
    }
}

/// A draw never pushes a pixel's depth farther away: every write
/// passes the nearer-or-tied test first, so the depth buffer is
/// non-increasing across draws.
pub proof fn lemma_draw_depth_monotone(fb: FrameBufferS, t: TriS, u: UniformS, i: int)
    requires
        0 <= i < fb.depth.len(),
    ensures
        s_draw_depth(fb, t)[i] <= fb.depth[i],
{
}

} // verus!
