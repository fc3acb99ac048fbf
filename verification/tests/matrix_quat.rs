//! Matrices, quaternions, transforms and the camera.

use softrender::camera::Camera;
use softrender::fixed::{Fx, FX_SCALE};
use softrender::matrix4::Matrix4;
use softrender::quat::Quat;
use softrender::transform::Transform;
use softrender::vector3::Vector3;
use softrender::vector4::Vector4;

fn fxi(v: i64) -> Fx {
    Fx::from_int(v)
}

#[test]
fn transform_vector() {
    let m = Matrix4::from_translation(fxi(1), fxi(2), fxi(3));
    let v = Vector4::new(fxi(1), fxi(2), fxi(3), fxi(1));
    let v2 = m.mul_vec4(v);
    assert_eq!(v2, Vector4::new(fxi(2), fxi(4), fxi(6), fxi(1)));
}

#[test]
fn identity_maps_vectors_to_themselves() {
    let m = Matrix4::identity();
    let v = Vector4::new(fxi(-7), Fx::from_bits(12345), fxi(3), Fx::one());
    assert_eq!(m.mul_vec4(v), v);
}

#[test]
fn matrix_product_against_identity() {
    let t = Matrix4::from_translation(fxi(5), fxi(-6), fxi(7));
    let p = Matrix4::identity().mul(t);
    let v = Vector4::new(fxi(1), fxi(1), fxi(1), fxi(1));
    assert_eq!(p.mul_vec4(v), Vector4::new(fxi(6), fxi(-5), fxi(8), fxi(1)));
}

#[test]
fn transpose_swaps_rows_and_columns() {
    let t = Matrix4::from_translation(fxi(5), fxi(-6), fxi(7));
    let tt = t.transpose();
    assert_eq!(tt.m[3], fxi(5));
    assert_eq!(tt.m[7], fxi(-6));
    assert_eq!(tt.m[11], fxi(7));
    assert_eq!(tt.m[12], Fx::zero());
}

#[test]
fn scaling_matrix_scales_each_axis() {
    let m = Matrix4::from_scaling(fxi(2), fxi(3), fxi(4));
    let v = Vector4::new(fxi(1), fxi(1), fxi(1), fxi(1));
    assert_eq!(m.mul_vec4(v), Vector4::new(fxi(2), fxi(3), fxi(4), fxi(1)));
}

#[test]
fn identity_rotation_keeps_vectors() {
    let q = Quat::identity();
    let v = Vector3::new(fxi(3), fxi(-4), fxi(5));
    assert_eq!(q.rotate_vector(v), v);
}

#[test]
fn angle_axis_half_turn_about_y() {
    // sin/cos of a quarter turn (half of a half turn): (1, 0).
    let q = Quat::angle_axis(Fx::one(), Fx::zero(), &Vector3::new(Fx::zero(), Fx::one(), Fx::zero()));
    let v = Vector3::new(fxi(1), Fx::zero(), Fx::zero());
    // A half turn about the y axis sends +x to -x.
    assert_eq!(q.rotate_vector(v), Vector3::new(fxi(-1), Fx::zero(), Fx::zero()));
}

#[test]
fn quaternion_normalize_collapses_near_zero() {
    let q = Quat::new(Fx::zero(), Fx::zero(), Fx::zero(), Fx::zero());
    assert_eq!(q.normalize(), Quat::identity());
}

#[test]
fn transform_point_translates_after_scaling() {
    let t = Transform::new(
        Vector3::new(fxi(10), fxi(20), fxi(30)),
        Quat::identity(),
        Vector3::new(fxi(2), fxi(2), fxi(2)),
    );
    let p = t.transform_point(Vector3::new(fxi(1), fxi(2), fxi(3)));
    assert_eq!(p, Vector3::new(fxi(12), fxi(24), fxi(36)));
}

#[test]
fn look_at_from_positive_z() {
    let cam = Camera::new(
        Vector3::new(Fx::zero(), Fx::zero(), fxi(4)),
        Vector3::new(Fx::zero(), Fx::zero(), Fx::zero()),
        Vector3::new(Fx::zero(), Fx::one(), Fx::zero()),
        Fx::from_bits(27146),  // tangent of half a 45-degree field of view
        Fx::from_bits(87381),  // 4:3 aspect
        Fx::from_bits(6554),
        fxi(100),
    );
    let view = cam.get_view_matrix();
    // The basis is the world basis; the translation row moves the
    // eye to the origin.
    assert_eq!(view.m[0], Fx::one());
    assert_eq!(view.m[5], Fx::one());
    assert_eq!(view.m[10], Fx::one());
    assert_eq!(view.m[12], Fx::zero());
    assert_eq!(view.m[13], Fx::zero());
    assert_eq!(view.m[14], fxi(-4));
    assert_eq!(view.m[15], Fx::one());
}

#[test]
fn frustum_maps_depth_to_unit_interval() {
    // near = 1, far = 3: an on-axis point at the near plane divides
    // to depth 0, one at the far plane to depth 1, exactly.
    let m = Matrix4::frustum(fxi(-1), fxi(1), fxi(-1), fxi(1), fxi(1), fxi(3));
    let near_point = m.mul_vec4(Vector4::new(Fx::zero(), Fx::zero(), fxi(-1), Fx::one()));
    let near_ndc = softrender::pipeline::perspective_divide(near_point);
    assert_eq!(near_ndc.z, Fx::zero());
    let far_point = m.mul_vec4(Vector4::new(Fx::zero(), Fx::zero(), fxi(-3), Fx::one()));
    let far_ndc = softrender::pipeline::perspective_divide(far_point);
    assert_eq!(far_ndc.z, Fx::one());
}

#[test]
fn hamilton_product_is_right_to_left() {
    let o = Fx::zero();
    let qi = Quat::new(Fx::one(), o, o, o);
    let qj = Quat::new(o, Fx::one(), o, o);
    let qk = Quat::new(o, o, Fx::one(), o);
    // The Hamilton identities i * j == k and j * i == -k pin the
    // operand order.
    assert_eq!(qi.mul(qj), qk);
    assert_eq!(qj.mul(qi), qk.neg());
    // The product applies right-to-left: the right factor rotates
    // first.
    let v = Vector3::new(o, Fx::one(), o);
    assert_eq!(qi.mul(qj).rotate_vector(v), qi.rotate_vector(qj.rotate_vector(v)));
}

#[test]
fn model_matrix_scales_before_rotating() {
    // A third-turn about the main diagonal sends x to y to z to x;
    // the non-uniform scale applies before the rotation, so the
    // model matrix agrees with transform_point.
    let half = Fx::from_bits(FX_SCALE / 2);
    let t = Transform::new(
        Vector3::new(Fx::zero(), Fx::zero(), Fx::zero()),
        Quat::new(half, half, half, half),
        Vector3::new(fxi(1), fxi(2), fxi(1)),
    );
    let m = t.to_mat4();
    let ex = Vector3::new(fxi(1), Fx::zero(), Fx::zero());
    let ey = Vector3::new(Fx::zero(), fxi(1), Fx::zero());
    assert_eq!(t.transform_point(ex), Vector3::new(Fx::zero(), fxi(1), Fx::zero()));
    assert_eq!(t.transform_point(ey), Vector3::new(Fx::zero(), Fx::zero(), fxi(2)));
    let mx = m.mul_vec4(Vector4::new(fxi(1), Fx::zero(), Fx::zero(), Fx::one()));
    assert_eq!(mx, Vector4::new(Fx::zero(), fxi(1), Fx::zero(), Fx::one()));
    let my = m.mul_vec4(Vector4::new(Fx::zero(), fxi(1), Fx::zero(), Fx::one()));
    assert_eq!(my, Vector4::new(Fx::zero(), Fx::zero(), fxi(2), Fx::one()));
}

#[test]
fn determinant_of_simple_matrices() {
    assert_eq!(Matrix4::identity().determinant(), Fx::one());
    assert_eq!(Matrix4::from_translation(fxi(1), fxi(2), fxi(3)).determinant(), Fx::one());
    assert_eq!(Matrix4::from_scaling(fxi(2), fxi(3), fxi(4)).determinant(), fxi(24));
    assert_eq!(Matrix4::new().determinant(), Fx::zero());
}

#[test]
fn inverse_of_translation_round_trips() {
    let m = Matrix4::from_translation(fxi(1), fxi(2), fxi(3));
    let inv = m.inverse();
    let v = Vector4::new(fxi(5), fxi(6), fxi(7), fxi(1));
    let forward = m.mul_vec4(v);
    assert_eq!(forward, Vector4::new(fxi(6), fxi(8), fxi(10), fxi(1)));
    assert_eq!(inv.mul_vec4(forward), v);
}

#[test]
fn inverse_of_scaling_halves() {
    let m = Matrix4::from_scaling(fxi(2), fxi(4), fxi(8));
    let inv = m.inverse();
    let v = Vector4::new(fxi(2), fxi(4), fxi(8), fxi(1));
    assert_eq!(inv.mul_vec4(v), Vector4::new(fxi(1), fxi(1), fxi(1), fxi(1)));
}

#[test]
fn perspective_divide_halves_by_w() {
    let v = Vector4::new(fxi(2), fxi(4), fxi(6), fxi(2));
    let d = softrender::pipeline::perspective_divide(v);
    assert_eq!(d, Vector4::new(fxi(1), fxi(2), fxi(3), Fx::from_bits(FX_SCALE / 2)));
}
