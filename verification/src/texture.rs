//! UV-addressed sampling over a decoded image. The image is held as
//! linear-light RGBA colors, one `Vector4` per pixel, row-major; the
//! loader that decodes a file into this shape lives outside the
//! library.

use vstd::prelude::*;

verus! {

use crate::fixed::FX_SCALE;
use crate::fixed::Fx;
use crate::fixed::ffract;
use crate::fixed::fmul;
use crate::fixed::fx_floor;
use crate::fixed::lemma_tdiv_nonneg;
use crate::fixed::tdiv;
use crate::vector2::Vector2;
use crate::vector4::Vec4S;
use crate::vector4::Vector4;

/// Mathematical image of a `Texture`.
pub struct TextureS {
    pub pixels: Seq<Vec4S>,
    pub width: int,
    pub height: int,
}

/// The pixel grid is non-empty, sized within the machine's pixel
/// coordinates, and fully backed by the pixel sequence.
pub open spec fn tex_wf(t: TextureS) -> bool {
    &&& 1 <= t.width <= 0x1_0000_0000
    &&& 1 <= t.height <= 0x1_0000_0000
    &&& t.pixels.len() == t.width * t.height
}

/// The column sampled for a wrapped coordinate `u` over `n` texels:
/// the fractional part scaled across the last texel index and
/// truncated.
pub open spec fn tex_axis(u: int, n: int) -> int {
    fx_floor(fmul(ffract(u), (n - 1) * (FX_SCALE as int)))
}

/// The flat pixel slot that UV coordinates `(u, v)` sample.
pub open spec fn tex_slot(t: TextureS, u: int, v: int) -> int {
    tex_axis(v, t.height) * t.width + tex_axis(u, t.width)
}

/// Every channel of every texel lies in `[0, 1]`, as a decoded
/// image's channels do.
pub open spec fn tex_channels_bounded(t: TextureS) -> bool {
    forall|i: int|
        #![trigger t.pixels[i]]
        0 <= i < t.pixels.len() ==> 0 <= t.pixels[i].x <= FX_SCALE && 0 <= t.pixels[i].y
            <= FX_SCALE && 0 <= t.pixels[i].z <= FX_SCALE && 0 <= t.pixels[i].w <= FX_SCALE
}

/// A decoded RGBA image with its size, immutable once built.
#[derive(Clone, Debug)]
pub struct Texture {
    pub pixels: Vec<Vector4>,
    pub width: u32,
    pub height: u32,
}

impl View for Texture {
    type V = TextureS;

    open spec fn view(&self) -> TextureS {
        TextureS {
            pixels: Seq::new(self.pixels@.len(), |i: int| self.pixels@[i]@),
            width: self.width as int,
            height: self.height as int,
        }
    }
}

/// A wrapped, scaled texture coordinate lands on the axis: the
/// sampled texel index is on the grid.
proof fn lemma_tex_axis_in_bounds(u: int, n: int)
    requires
        1 <= n <= 0x1_0000_0000,
    ensures
        0 <= fmul(ffract(u), (n - 1) * (FX_SCALE as int)),
        0 <= tex_axis(u, n) < n,
{
    let s = FX_SCALE as int;
    let f = ffract(u);
    vstd::arithmetic::div_mod::lemma_mod_bound(u, s);
    let prod = f * ((n - 1) * s);
    assert(0 <= prod && prod <= s * ((s - 1) * (n - 1))) by (nonlinear_arith)
        requires
            prod == f * ((n - 1) * s),
            0 <= f <= s - 1,
            n >= 1,
            s == 0x1_0000,
    ;
    lemma_tdiv_nonneg(prod, s);
    let q = tdiv(prod, s);
    assert(q == prod / s || prod == 0);
    if prod > 0 {
        vstd::arithmetic::div_mod::lemma_multiply_divide_le(prod, s, (s - 1) * (n - 1));
    }
    assert(q <= (s - 1) * (n - 1));
    assert((s - 1) * (n - 1) < 0x3FFF_FFFF_FFFF_FFFF) by (nonlinear_arith)
        requires
            1 <= n <= 0x1_0000_0000,
            s == 0x1_0000,
    ;
    let m = fmul(f, (n - 1) * s);
    assert(m == q);
    assert(m < s * n) by (nonlinear_arith)
        requires
            m <= (s - 1) * (n - 1),
            n >= 1,
            s == 0x1_0000,
    ;
    vstd::arithmetic::div_mod::lemma_multiply_divide_lt(m, s, n);
    vstd::arithmetic::div_mod::lemma_div_pos_is_pos(m, s);
}

/// The slot any UV pair samples lies inside the pixel sequence.
pub proof fn lemma_tex_slot_in_bounds(t: TextureS, u: int, v: int)
    requires
        tex_wf(t),
    ensures
        0 <= tex_slot(t, u, v) < t.pixels.len(),
{
    lemma_tex_axis_in_bounds(u, t.width);
    lemma_tex_axis_in_bounds(v, t.height);
    assert(0 <= tex_axis(v, t.height) * t.width + tex_axis(u, t.width)
        < t.width * t.height) by (nonlinear_arith)
        requires
            0 <= tex_axis(u, t.width) < t.width,
            0 <= tex_axis(v, t.height) < t.height,
    ;
}

/// Sampling wraps with period one in both coordinates: UV pairs a
/// whole unit apart in either direction sample the same pixel.
pub proof fn lemma_sample_wraps(t: TextureS, u: int, v: int)
    ensures
        tex_slot(t, u + FX_SCALE, v) == tex_slot(t, u, v),
        tex_slot(t, u, v + FX_SCALE) == tex_slot(t, u, v),
{
    crate::fixed::lemma_fract_periodic(u);
    crate::fixed::lemma_fract_periodic(v);
}

impl Texture {
    /// Adopt decoded pixels with their grid size.
    pub fn new(pixels: Vec<Vector4>, width: u32, height: u32) -> (r: Texture)
        requires
            width >= 1,
            height >= 1,
            pixels@.len() == width * height,
        ensures
            r@.width == width as int,
            r@.height == height as int,
            r@.pixels == Seq::new(pixels@.len(), |i: int| pixels@[i]@),
            tex_wf(r@),
    {
        Texture { pixels, width, height }
    }

    /// Read the texel at integer coordinates.
    pub fn get_pixel(&self, x: u32, y: u32) -> (r: Vector4)
        requires
            tex_wf(self@),
            x < self@.width,
            y < self@.height,
        ensures
            r@ == self@.pixels[y * self@.width + x],
    {
        proof {
            vstd::std_specs::vec::axiom_spec_len(&self.pixels);
            assert(0 <= y * self@.width + x < self@.pixels.len()) by (nonlinear_arith)
                requires
                    0 <= x < self@.width,
                    0 <= y < self@.height,
                    self@.pixels.len() == self@.width * self@.height,
            ;
        }
        let index: usize = (y as usize) * (self.width as usize) + (x as usize);
        self.pixels[index]
    }

    /// Sample at UV coordinates: both coordinates wrap by their
    /// fractional part, scale across the last texel index, and
    /// truncate to a texel.
    pub fn sample(&self, uv: Vector2) -> (r: Vector4)
        requires
            tex_wf(self@),
        ensures
            r@ == self@.pixels[tex_slot(self@, uv@.x, uv@.y)],
    {
        proof {
            lemma_tex_axis_in_bounds(uv@.x, self@.width);
            lemma_tex_axis_in_bounds(uv@.y, self@.height);
        }
        let u = uv.x.fract();
        let v = uv.y.fract();
        let c: u32 = u.mul(Fx::from_int((self.width - 1) as i64)).to_u32_floor();
        let rr: u32 = v.mul(Fx::from_int((self.height - 1) as i64)).to_u32_floor();
        self.get_pixel(c, rr)
    }
}

} // verus!
