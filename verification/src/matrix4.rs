//! 4x4 matrices stored as a flat 16-entry array in column-major
//! layout: column `i` occupies slots `[4i, 4i + 4)`. Multiplication
//! composes right-to-left; the rightmost matrix applies first to a
//! vector.

use vstd::prelude::*;

verus! {

use crate::fixed::FX_SCALE;
use crate::fixed::Fx;
use crate::fixed::fadd;
use crate::fixed::fdiv;
use crate::fixed::fmul;
use crate::fixed::fneg;
use crate::fixed::fsub;
use crate::vector3::Vec3S;
use crate::vector3::Vector3;
use crate::vector3::v3_cross;
use crate::vector3::v3_dot;
use crate::vector3::v3_normalize;
use crate::vector3::v3_scale;
use crate::vector3::v3_sub;
use crate::vector4::Vec4S;
use crate::vector4::Vector4;
use crate::vector4::v4_dot;

/// Row `i` of a column-major 4x4 matrix.
pub open spec fn m4_row(m: Seq<int>, i: int) -> Vec4S {
    Vec4S { x: m[0 * 4 + i], y: m[1 * 4 + i], z: m[2 * 4 + i], w: m[3 * 4 + i] }
}

/// Column `i` of a column-major 4x4 matrix.
pub open spec fn m4_col(m: Seq<int>, i: int) -> Vec4S {
    Vec4S { x: m[i * 4], y: m[i * 4 + 1], z: m[i * 4 + 2], w: m[i * 4 + 3] }
}

/// The sixteen entries of the identity.
pub open spec fn m4_identity() -> Seq<int> {
    seq![
        FX_SCALE as int, 0, 0, 0,
        0, FX_SCALE as int, 0, 0,
        0, 0, FX_SCALE as int, 0,
        0, 0, 0, FX_SCALE as int,
    ]
}

/// Entries laid out from four column vectors.
pub open spec fn m4_from_columns(c1: Vec4S, c2: Vec4S, c3: Vec4S, c4: Vec4S) -> Seq<int> {
    seq![
        c1.x, c1.y, c1.z, c1.w,
        c2.x, c2.y, c2.z, c2.w,
        c3.x, c3.y, c3.z, c3.w,
        c4.x, c4.y, c4.z, c4.w,
    ]
}

/// Entries laid out from four row vectors.
pub open spec fn m4_from_rows(r1: Vec4S, r2: Vec4S, r3: Vec4S, r4: Vec4S) -> Seq<int> {
    seq![
        r1.x, r2.x, r3.x, r4.x,
        r1.y, r2.y, r3.y, r4.y,
        r1.z, r2.z, r3.z, r4.z,
        r1.w, r2.w, r3.w, r4.w,
    ]
}

/// The translation matrix by `(x, y, z)`.
pub open spec fn m4_translation(x: int, y: int, z: int) -> Seq<int> {
    seq![
        FX_SCALE as int, 0, 0, 0,
        0, FX_SCALE as int, 0, 0,
        0, 0, FX_SCALE as int, 0,
        x, y, z, FX_SCALE as int,
    ]
}

/// The non-uniform scaling matrix by `(x, y, z)`.
pub open spec fn m4_scaling(x: int, y: int, z: int) -> Seq<int> {
    seq![
        x, 0, 0, 0,
        0, y, 0, 0,
        0, 0, z, 0,
        0, 0, 0, FX_SCALE as int,
    ]
}

/// The Euler rotation matrix, written over the sines and cosines of
/// the three angles.
pub open spec fn m4_rotation(sx: int, cx: int, sy: int, cy: int, sz: int, cz: int) -> Seq<int> {
    seq![
        fmul(cy, cz),
        fadd(fmul(fmul(sx, sy), cz), fmul(cx, sz)),
        fadd(fmul(fmul(fneg(cx), sy), cz), fmul(sx, sz)),
        0,
        fmul(fneg(cy), sz),
        fadd(fmul(fmul(fneg(sx), sy), sz), fmul(cx, cz)),
        fadd(fmul(fmul(cx, sy), sz), fmul(sx, cz)),
        0,
        sy,
        fmul(fneg(sx), cy),
        fmul(cx, cy),
        0,
        0,
        0,
        0,
        FX_SCALE as int,
    ]
}

/// The look-at view matrix: an orthonormal basis with the forward
/// axis pointing away from the target, and the eye projected onto
/// each axis as the translation row.
pub open spec fn m4_look_at(eye: Vec3S, target: Vec3S, up: Vec3S) -> Seq<int> {
    let f = v3_scale(v3_normalize(v3_sub(target, eye)), -(FX_SCALE as int));
    let r = v3_normalize(v3_cross(up, f));
    let u = v3_normalize(v3_cross(f, r));
    let tx = fneg(v3_dot(r, eye));
    let ty = fneg(v3_dot(u, eye));
    let tz = fneg(v3_dot(f, eye));
    seq![
        r.x, u.x, f.x, 0,
        r.y, u.y, f.y, 0,
        r.z, u.z, f.z, 0,
        tx, ty, tz, FX_SCALE as int,
    ]
}

/// The perspective frustum matrix mapping view-space depth to
/// `[0, 1]` after the divide: an on-axis point at the near plane
/// divides to depth zero, one at the far plane to depth one,
/// matching the `[0, 1]` depth test and the far-plane clear.
pub open spec fn m4_frustum(l: int, r: int, b: int, t: int, n: int, f: int) -> Seq<int> {
    seq![
        fdiv(fmul(2 * FX_SCALE as int, n), fsub(r, l)),
        0,
        0,
        0,
        0,
        fdiv(fmul(2 * FX_SCALE as int, n), fsub(t, b)),
        0,
        0,
        fdiv(fadd(r, l), fsub(r, l)),
        fdiv(fadd(t, b), fsub(t, b)),
        fdiv(fneg(f), fsub(f, n)),
        -(FX_SCALE as int),
        0,
        0,
        fdiv(fneg(fmul(f, n)), fsub(f, n)),
        0,
    ]
}

/// The symmetric frustum derived from the tangent of half the
/// vertical field of view.
pub open spec fn m4_perspective(tan_half_fov: int, aspect: int, n: int, f: int) -> Seq<int> {
    let ymax = fmul(n, tan_half_fov);
    let xmax = fmul(ymax, aspect);
    m4_frustum(fneg(xmax), xmax, fneg(ymax), ymax, n, f)
}

/// Matrix-vector product over the rows.
pub open spec fn m4_mul_vec(m: Seq<int>, v: Vec4S) -> Vec4S {
    Vec4S {
        x: v4_dot(m4_row(m, 0), v),
        y: v4_dot(m4_row(m, 1), v),
        z: v4_dot(m4_row(m, 2), v),
        w: v4_dot(m4_row(m, 3), v),
    }
}

/// Matrix-matrix product: entry `(row i, column j)` is row `i` of the
/// left factor against column `j` of the right factor.
pub open spec fn m4_mul(a: Seq<int>, b: Seq<int>) -> Seq<int> {
    Seq::new(16, |k: int| v4_dot(m4_row(a, k % 4), m4_col(b, k / 4)))
}

/// The remaining index after striking row or column `x` from a 4x4
/// matrix: the `i`-th of the three that survive.
pub open spec fn m4_skip(i: int, x: int) -> int {
    if i < x {
        i
    } else {
        i + 1
    }
}

/// A 3x3 determinant, expanded along its first row with the
/// products and sums evaluated left to right.
pub open spec fn det3(
    a: int,
    b: int,
    c: int,
    d: int,
    e: int,
    f: int,
    g: int,
    h: int,
    i: int,
) -> int {
    fadd(
        fsub(
            fmul(a, fsub(fmul(e, i), fmul(f, h))),
            fmul(b, fsub(fmul(d, i), fmul(f, g))),
        ),
        fmul(c, fsub(fmul(d, h), fmul(e, g))),
    )
}

/// The determinant of the 3x3 minor left when row `r` and column `c`
/// are struck out.
#[verifier::opaque]
pub open spec fn m4_minor_det(m: Seq<int>, r: int, c: int) -> int {
    det3(
        m[m4_skip(0, c) * 4 + m4_skip(0, r)],
        m[m4_skip(1, c) * 4 + m4_skip(0, r)],
        m[m4_skip(2, c) * 4 + m4_skip(0, r)],
        m[m4_skip(0, c) * 4 + m4_skip(1, r)],
        m[m4_skip(1, c) * 4 + m4_skip(1, r)],
        m[m4_skip(2, c) * 4 + m4_skip(1, r)],
        m[m4_skip(0, c) * 4 + m4_skip(2, r)],
        m[m4_skip(1, c) * 4 + m4_skip(2, r)],
        m[m4_skip(2, c) * 4 + m4_skip(2, r)],
    )
}

/// The determinant, by cofactor expansion along the first row.
pub open spec fn m4_det(m: Seq<int>) -> int {
    fsub(
        fadd(
            fsub(
                fmul(m[0], m4_minor_det(m, 0, 0)),
                fmul(m[4], m4_minor_det(m, 0, 1)),
            ),
            fmul(m[8], m4_minor_det(m, 0, 2)),
        ),
        fmul(m[12], m4_minor_det(m, 0, 3)),
    )
}

/// The cofactor at row `r`, column `c`: the minor determinant with
/// the checkerboard sign.
pub open spec fn m4_cof(m: Seq<int>, r: int, c: int) -> int {
    if (r + c) % 2 == 0 {
        m4_minor_det(m, r, c)
    } else {
        fneg(m4_minor_det(m, r, c))
    }
}

/// The inverse: the transposed cofactors, each divided by the
/// determinant.
pub open spec fn m4_inverse(m: Seq<int>) -> Seq<int> {
    Seq::new(16, |k: int| fdiv(m4_cof(m, k / 4, k % 4), m4_det(m)))
}

/// The identity matrix maps every representable vector to itself.
pub proof fn lemma_identity_mul_vec(v: Vec4S)
    requires
        crate::fixed::in_range(v.x),
        crate::fixed::in_range(v.y),
        crate::fixed::in_range(v.z),
        crate::fixed::in_range(v.w),
    ensures
        m4_mul_vec(m4_identity(), v) == v,
{
    crate::fixed::lemma_fmul_one(v.x);
    crate::fixed::lemma_fmul_one(v.y);
    crate::fixed::lemma_fmul_one(v.z);
    crate::fixed::lemma_fmul_one(v.w);
    crate::fixed::lemma_fmul_zero(v.x);
    crate::fixed::lemma_fmul_zero(v.y);
    crate::fixed::lemma_fmul_zero(v.z);
    crate::fixed::lemma_fmul_zero(v.w);
}

/// The translation matrix carries a point by exactly its offsets:
/// the round trip adds componentwise and keeps the homogeneous
/// coordinate.
pub proof fn lemma_translation_round_trip(x: int, y: int, z: int, px: int, py: int, pz: int)
    requires
        crate::fixed::in_range(x),
        crate::fixed::in_range(y),
        crate::fixed::in_range(z),
        crate::fixed::in_range(px),
        crate::fixed::in_range(py),
        crate::fixed::in_range(pz),
        crate::fixed::in_range(px + x),
        crate::fixed::in_range(py + y),
        crate::fixed::in_range(pz + z),
    ensures
        m4_mul_vec(m4_translation(x, y, z), Vec4S { x: px, y: py, z: pz, w: FX_SCALE as int })
            == (Vec4S { x: px + x, y: py + y, z: pz + z, w: FX_SCALE as int }),
{
    crate::fixed::lemma_fmul_one(px);
    crate::fixed::lemma_fmul_one(py);
    crate::fixed::lemma_fmul_one(pz);
    crate::fixed::lemma_fmul_one(x);
    crate::fixed::lemma_fmul_one(y);
    crate::fixed::lemma_fmul_one(z);
    crate::fixed::lemma_fmul_one(FX_SCALE as int);
    crate::fixed::lemma_fmul_zero(px);
    crate::fixed::lemma_fmul_zero(py);
    crate::fixed::lemma_fmul_zero(pz);
    crate::fixed::lemma_fmul_zero(FX_SCALE as int);
}

/// A 4x4 matrix of fixed-point scalars, stored as a flat array in
/// column-major layout.
#[derive(Clone, Copy, Debug)]
pub struct Matrix4 {
    pub m: [Fx; 16],
}

impl View for Matrix4 {
    type V = Seq<int>;

    open spec fn view(&self) -> Seq<int> {
        Seq::new(16, |i: int| self.m@[i]@)
    }
}

impl Matrix4 {
    /// The zero matrix.
    pub fn new() -> (r: Matrix4)
        ensures
            r@ =~= Seq::new(16, |i: int| 0int),
    {
        Matrix4 { m: [Fx::zero(); 16] }
    }

    /// The identity matrix.
    pub fn identity() -> (r: Matrix4)
        ensures
            r@ =~= m4_identity(),
    {
        let one = Fx::one();
        let o = Fx::zero();
        Matrix4 { m: [one, o, o, o, o, one, o, o, o, o, one, o, o, o, o, one] }
    }

    /// Adopt sixteen entries as they stand.
    pub fn from_array(array: [Fx; 16]) -> (r: Matrix4)
        ensures
            r@ =~= Seq::new(16, |i: int| array@[i]@),
    {
        Matrix4 { m: array }
    }

    /// Lay out four column vectors.
    pub fn from_columns(c1: &Vector4, c2: &Vector4, c3: &Vector4, c4: &Vector4) -> (r: Matrix4)
        ensures
            r@ =~= m4_from_columns(c1@, c2@, c3@, c4@),
    {
        Matrix4 {
            m: [
                c1.x, c1.y, c1.z, c1.w, c2.x, c2.y, c2.z, c2.w, c3.x, c3.y, c3.z, c3.w, c4.x,
                c4.y, c4.z, c4.w,
            ],
        }
    }

    /// Lay out four row vectors.
    pub fn from_rows(r1: &Vector4, r2: &Vector4, r3: &Vector4, r4: &Vector4) -> (r: Matrix4)
        ensures
            r@ =~= m4_from_rows(r1@, r2@, r3@, r4@),
    {
        Matrix4 {
            m: [
                r1.x, r2.x, r3.x, r4.x, r1.y, r2.y, r3.y, r4.y, r1.z, r2.z, r3.z, r4.z, r1.w,
                r2.w, r3.w, r4.w,
            ],
        }
    }

    /// The translation matrix by `(x, y, z)`.
    pub fn from_translation(x: Fx, y: Fx, z: Fx) -> (r: Matrix4)
        ensures
            r@ =~= m4_translation(x@, y@, z@),
    {
        let one = Fx::one();
        let o = Fx::zero();
        Matrix4 { m: [one, o, o, o, o, one, o, o, o, o, one, o, x, y, z, one] }
    }

    /// The non-uniform scaling matrix by `(x, y, z)`.
    pub fn from_scaling(x: Fx, y: Fx, z: Fx) -> (r: Matrix4)
        ensures
            r@ =~= m4_scaling(x@, y@, z@),
    {
        let one = Fx::one();
        let o = Fx::zero();
        Matrix4 { m: [x, o, o, o, o, y, o, o, o, o, z, o, o, o, o, one] }
    }

    /// The Euler rotation matrix. The caller supplies the sine and
    /// cosine of each angle, since the library's scalars carry no
    /// trigonometric functions of their own.
    pub fn from_rotation(sx: Fx, cx: Fx, sy: Fx, cy: Fx, sz: Fx, cz: Fx) -> (r: Matrix4)
        ensures
            r@ =~= m4_rotation(sx@, cx@, sy@, cy@, sz@, cz@),
    {
        let one = Fx::one();
        let o = Fx::zero();
        Matrix4 {
            m: [
                cy.mul(cz),
                sx.mul(sy).mul(cz).add(cx.mul(sz)),
                cx.neg().mul(sy).mul(cz).add(sx.mul(sz)),
                o,
                cy.neg().mul(sz),
                sx.neg().mul(sy).mul(sz).add(cx.mul(cz)),
                cx.mul(sy).mul(sz).add(sx.mul(cz)),
                o,
                sy,
                sx.neg().mul(cy),
                cx.mul(cy),
                o,
                o,
                o,
                o,
                one,
            ],
        }
    }

    /// The look-at view matrix.
    pub fn look_at(eye: &Vector3, target: &Vector3, up: &Vector3) -> (r: Matrix4)
        ensures
            r@ =~= m4_look_at(eye@, target@, up@),
    {
        let f = target.sub(*eye).normalize().scale(Fx::from_int(-1));
        let rt = up.cross(&f).normalize();
        let u = f.cross(&rt).normalize();
        let tx = rt.dot(eye).neg();
        let ty = u.dot(eye).neg();
        let tz = f.dot(eye).neg();
        let one = Fx::one();
        let o = Fx::zero();
        Matrix4 {
            m: [
                rt.x, u.x, f.x, o, rt.y, u.y, f.y, o, rt.z, u.z, f.z, o, tx, ty, tz, one,
            ],
        }
    }

    /// The asymmetric perspective frustum.
    pub fn frustum(left: Fx, right: Fx, bottom: Fx, top: Fx, near: Fx, far: Fx) -> (r: Matrix4)
        ensures
            r@ =~= m4_frustum(left@, right@, bottom@, top@, near@, far@),
    {
        let o = Fx::zero();
        Matrix4 {
            m: [
                Fx::from_int(2).mul(near).div(right.sub(left)),
                o,
                o,
                o,
                o,
                Fx::from_int(2).mul(near).div(top.sub(bottom)),
                o,
                o,
                right.add(left).div(right.sub(left)),
                top.add(bottom).div(top.sub(bottom)),
                far.neg().div(far.sub(near)),
                Fx::from_int(-1),
                o,
                o,
                far.mul(near).neg().div(far.sub(near)),
                o,
            ],
        }
    }

    /// The symmetric frustum from the tangent of half the vertical
    /// field of view. The caller supplies the tangent, since the
    /// library's scalars carry no trigonometric functions of their
    /// own.
    pub fn perspective(tan_half_fov: Fx, aspect: Fx, near: Fx, far: Fx) -> (r: Matrix4)
        ensures
            r@ =~= m4_perspective(tan_half_fov@, aspect@, near@, far@),
    {
        let ymax = near.mul(tan_half_fov);
        let xmax = ymax.mul(aspect);
        Matrix4::frustum(xmax.neg(), xmax, ymax.neg(), ymax, near, far)
    }

    /// Swap rows and columns.
    pub fn transpose(&self) -> (r: Matrix4)
        ensures
            r@ =~= m4_from_rows(m4_col(self@, 0), m4_col(self@, 1), m4_col(self@, 2), m4_col(self@, 3)),
    {
        Matrix4::from_rows(
            &Vector4::new(self.m[0], self.m[1], self.m[2], self.m[3]),
            &Vector4::new(self.m[4], self.m[5], self.m[6], self.m[7]),
            &Vector4::new(self.m[8], self.m[9], self.m[10], self.m[11]),
            &Vector4::new(self.m[12], self.m[13], self.m[14], self.m[15]),
        )
    }

    /// Row `i`.
    pub fn row(&self, i: usize) -> (r: Vector4)
        requires
            i < 4,
        ensures
            r@ == m4_row(self@, i as int),
    {
        Vector4::new(self.m[0 * 4 + i], self.m[1 * 4 + i], self.m[2 * 4 + i], self.m[3 * 4 + i])
    }

    /// Column `i`.
    pub fn col(&self, i: usize) -> (r: Vector4)
        requires
            i < 4,
        ensures
            r@ == m4_col(self@, i as int),
    {
        Vector4::new(self.m[i * 4], self.m[i * 4 + 1], self.m[i * 4 + 2], self.m[i * 4 + 3])
    }

    /// Matrix-matrix product; the right factor applies first to a
    /// vector.
    pub fn mul(self, other: Matrix4) -> (r: Matrix4)
        ensures
            r@ =~= m4_mul(self@, other@),
    {
        Matrix4 {
            m: [
                self.row(0).dot(&other.col(0)),
                self.row(1).dot(&other.col(0)),
                self.row(2).dot(&other.col(0)),
                self.row(3).dot(&other.col(0)),
                self.row(0).dot(&other.col(1)),
                self.row(1).dot(&other.col(1)),
                self.row(2).dot(&other.col(1)),
                self.row(3).dot(&other.col(1)),
                self.row(0).dot(&other.col(2)),
                self.row(1).dot(&other.col(2)),
                self.row(2).dot(&other.col(2)),
                self.row(3).dot(&other.col(2)),
                self.row(0).dot(&other.col(3)),
                self.row(1).dot(&other.col(3)),
                self.row(2).dot(&other.col(3)),
                self.row(3).dot(&other.col(3)),
            ],
        }
    }

    /// The determinant of the 3x3 minor left when row `r` and
    /// column `c` are struck out.
    fn minor_det(&self, r: usize, c: usize) -> (ret: Fx)
        requires
            r < 4,
            c < 4,
        ensures
            ret@ == m4_minor_det(self@, r as int, c as int),
    {
        proof {
            reveal(m4_minor_det);
        }
        let r0: usize = if 0 < r { 0 } else { 1 };
        let r1: usize = if 1 < r { 1 } else { 2 };
        let r2: usize = if 2 < r { 2 } else { 3 };
        let c0: usize = if 0 < c { 0 } else { 1 };
        let c1: usize = if 1 < c { 1 } else { 2 };
        let c2: usize = if 2 < c { 2 } else { 3 };
        let a = self.m[c0 * 4 + r0];
        let b = self.m[c1 * 4 + r0];
        let cc = self.m[c2 * 4 + r0];
        let d = self.m[c0 * 4 + r1];
        let e = self.m[c1 * 4 + r1];
        let f = self.m[c2 * 4 + r1];
        let g = self.m[c0 * 4 + r2];
        let h = self.m[c1 * 4 + r2];
        let i = self.m[c2 * 4 + r2];
        a.mul(e.mul(i).sub(f.mul(h))).sub(b.mul(d.mul(i).sub(f.mul(g)))).add(
            cc.mul(d.mul(h).sub(e.mul(g))),
        )
    }

    /// The determinant, by cofactor expansion along the first row.
    pub fn determinant(&self) -> (r: Fx)
        ensures
            r@ == m4_det(self@),
    {
        self.m[0].mul(self.minor_det(0, 0)).sub(self.m[4].mul(self.minor_det(0, 1))).add(
            self.m[8].mul(self.minor_det(0, 2)),
        ).sub(self.m[12].mul(self.minor_det(0, 3)))
    }

    /// The cofactor at row `r`, column `c`.
    fn cof(&self, r: usize, c: usize) -> (ret: Fx)
        requires
            r < 4,
            c < 4,
        ensures
            ret@ == m4_cof(self@, r as int, c as int),
    {
        let minor = self.minor_det(r, c);
        if (r + c) % 2 == 0 {
            minor
        } else {
            minor.neg()
        }
    }

    /// The inverse, by the adjugate over the determinant. A
    /// vanishing determinant means a degenerate camera or transform
    /// and is a caller error.
    pub fn inverse(&self) -> (r: Matrix4)
        requires
            m4_det(self@) != 0,
        ensures
            r@ =~= m4_inverse(self@),
    {
        let det = self.determinant();
        Matrix4 {
            m: [
                self.cof(0, 0).div(det),
                self.cof(0, 1).div(det),
                self.cof(0, 2).div(det),
                self.cof(0, 3).div(det),
                self.cof(1, 0).div(det),
                self.cof(1, 1).div(det),
                self.cof(1, 2).div(det),
                self.cof(1, 3).div(det),
                self.cof(2, 0).div(det),
                self.cof(2, 1).div(det),
                self.cof(2, 2).div(det),
                self.cof(2, 3).div(det),
                self.cof(3, 0).div(det),
                self.cof(3, 1).div(det),
                self.cof(3, 2).div(det),
                self.cof(3, 3).div(det),
            ],
        }
    }

    /// Matrix-vector product.
    pub fn mul_vec4(self, other: Vector4) -> (r: Vector4)
        ensures
            r@ == m4_mul_vec(self@, other@),
    {
        Vector4::new(
            self.row(0).dot(&other),
            self.row(1).dot(&other),
            self.row(2).dot(&other),
            self.row(3).dot(&other),
        )
    }
}

} // verus!
