//! The render target: a packed color buffer and a parallel depth
//! buffer, both indexed row-major by `y * width + x`.

use vstd::prelude::*;

verus! {

use crate::fixed::FX_SCALE;
use crate::fixed::Fx;

/// Mathematical image of a `FrameBuffer`.
pub struct FrameBufferS {
    pub width: int,
    pub height: int,
    pub colors: Seq<u32>,
    pub depth: Seq<int>,
}

/// The buffers cover exactly the `width * height` pixel grid.
pub open spec fn fb_wf(fb: FrameBufferS) -> bool {
    &&& fb.colors.len() == fb.width * fb.height
    &&& fb.depth.len() == fb.width * fb.height
}

/// The flat buffer slot of pixel `(x, y)`.
pub open spec fn fb_index(fb: FrameBufferS, x: int, y: int) -> int {
    y * fb.width + x
}

/// Whether `(x, y)` lies on the pixel grid.
pub open spec fn fb_in_bounds(fb: FrameBufferS, x: int, y: int) -> bool {
    0 <= x < fb.width && 0 <= y < fb.height
}

/// A fixed-size render target. The depth buffer holds normalized
/// device depths, where zero is the near plane and one the far
/// plane.
pub struct FrameBuffer {
    width: u32,
    height: u32,
    colors: Vec<u32>,
    depth: Vec<Fx>,
}

impl View for FrameBuffer {
    type V = FrameBufferS;

    closed spec fn view(&self) -> FrameBufferS {
        FrameBufferS {
            width: self.width as int,
            height: self.height as int,
            colors: self.colors@,
            depth: Seq::new(self.depth@.len(), |i: int| self.depth@[i]@),
        }
    }
}

/// A pixel slot index stays inside the buffers.
pub proof fn lemma_fb_index_in_bounds(fb: FrameBufferS, x: int, y: int)
    requires
        fb_wf(fb),
        fb_in_bounds(fb, x, y),
    ensures
        0 <= fb_index(fb, x, y) < fb.colors.len(),
{
    assert(y * fb.width + x < fb.width * fb.height) by (nonlinear_arith)
        requires
            0 <= x < fb.width,
            0 <= y < fb.height,
    ;
    assert(y * fb.width + x >= 0) by (nonlinear_arith)
        requires
            0 <= x,
            0 <= y,
            fb.width > 0,
    ;
}

impl FrameBuffer {
    /// Allocate a buffer of the given size, colors opaque black and
    /// depth at the far plane.
    pub fn new(width: u32, height: u32) -> (r: FrameBuffer)
        requires
            width * height <= usize::MAX,
        ensures
            r@.width == width as int,
            r@.height == height as int,
            fb_wf(r@),
            forall|i: int| 0 <= i < r@.colors.len() ==> r@.colors[i] == 0xFF000000u32,
            forall|i: int| 0 <= i < r@.depth.len() ==> r@.depth[i] == FX_SCALE as int,
    {
        proof {
            assert((width as int) * (height as int) >= 0) by (nonlinear_arith);
        }
        let count: usize = (width as usize) * (height as usize);
        let mut colors: Vec<u32> = Vec::new();
        let mut depth: Vec<Fx> = Vec::new();
        let mut i: usize = 0;
        while i < count
            invariant
                i <= count,
                colors@.len() == i,
                depth@.len() == i,
                forall|j: int| 0 <= j < i ==> colors@[j] == 0xFF000000u32,
                forall|j: int| 0 <= j < i ==> depth@[j]@ == FX_SCALE as int,
            decreases count - i,
        {
            colors.push(0xFF000000);
            depth.push(Fx::one());
            i = i + 1;
        }
        FrameBuffer { width, height, colors, depth }
    }

    /// The width in pixels.
    pub fn width(&self) -> (r: u32)
        ensures
            r as int == self@.width,
    {
        self.width
    }

    /// The height in pixels.
    pub fn height(&self) -> (r: u32)
        ensures
            r as int == self@.height,
    {
        self.height
    }

    /// Write one pixel's packed color.
    pub fn set_color(&mut self, x: u32, y: u32, color: u32)
        requires
            fb_wf(old(self)@),
            fb_in_bounds(old(self)@, x as int, y as int),
        ensures
            fb_wf(final(self)@),
            final(self)@.width == old(self)@.width,
            final(self)@.height == old(self)@.height,
            final(self)@.depth == old(self)@.depth,
            final(self)@.colors == old(self)@.colors.update(
                fb_index(old(self)@, x as int, y as int),
                color,
            ),
    {
        proof {
            vstd::std_specs::vec::axiom_spec_len(&self.colors);
            lemma_fb_index_in_bounds(self@, x as int, y as int);
        }
        let index: usize = (y as usize) * (self.width as usize) + (x as usize);
        self.colors.set(index, color);
    }

    /// Read one pixel's packed color.
    pub fn get_color(&self, x: u32, y: u32) -> (r: u32)
        requires
            fb_wf(self@),
            fb_in_bounds(self@, x as int, y as int),
        ensures
            r == self@.colors[fb_index(self@, x as int, y as int)],
    {
        proof {
            vstd::std_specs::vec::axiom_spec_len(&self.colors);
            lemma_fb_index_in_bounds(self@, x as int, y as int);
        }
        let index: usize = (y as usize) * (self.width as usize) + (x as usize);
        self.colors[index]
    }

    /// Read one pixel's depth.
    pub fn get_depth(&self, x: u32, y: u32) -> (r: Fx)
        requires
            fb_wf(self@),
            fb_in_bounds(self@, x as int, y as int),
        ensures
            r@ == self@.depth[fb_index(self@, x as int, y as int)],
    {
        proof {
            vstd::std_specs::vec::axiom_spec_len(&self.colors);
            lemma_fb_index_in_bounds(self@, x as int, y as int);
        }
        let index: usize = (y as usize) * (self.width as usize) + (x as usize);
        self.depth[index]
    }

    /// Write one pixel's depth.
    pub fn set_depth(&mut self, x: u32, y: u32, depth: Fx)
        requires
            fb_wf(old(self)@),
            fb_in_bounds(old(self)@, x as int, y as int),
        ensures
            fb_wf(final(self)@),
            final(self)@.width == old(self)@.width,
            final(self)@.height == old(self)@.height,
            final(self)@.colors == old(self)@.colors,
            final(self)@.depth =~= old(self)@.depth.update(
                fb_index(old(self)@, x as int, y as int),
                depth@,
            ),
    {
        proof {
            vstd::std_specs::vec::axiom_spec_len(&self.colors);
            lemma_fb_index_in_bounds(self@, x as int, y as int);
        }
        let index: usize = (y as usize) * (self.width as usize) + (x as usize);
        self.depth.set(index, depth);
    }

    /// Reset every color cell to `color` and every depth cell to the
    /// far plane.
    pub fn clear(&mut self, color: u32)
        requires
            fb_wf(old(self)@),
        ensures
            fb_wf(final(self)@),
            final(self)@.width == old(self)@.width,
            final(self)@.height == old(self)@.height,
            final(self)@.colors.len() == old(self)@.colors.len(),
            final(self)@.depth.len() == old(self)@.depth.len(),
            forall|i: int| 0 <= i < final(self)@.colors.len() ==> final(self)@.colors[i] == color,
            forall|i: int| 0 <= i < final(self)@.depth.len() ==> final(self)@.depth[i]
                == FX_SCALE as int,
    {
        let mut i: usize = 0;
        let count: usize = self.colors.len();
        while i < count
            invariant
                i <= count,
                count == self.colors@.len(),
                self.width == old(self).width,
                self.height == old(self).height,
                self.depth == old(self).depth,
                forall|j: int| 0 <= j < i ==> self.colors@[j] == color,
            decreases count - i,
        {
            self.colors.set(i, color);
            i = i + 1;
        }
        let mut k: usize = 0;
        let dcount: usize = self.depth.len();
        while k < dcount
            invariant
                k <= dcount,
                dcount == self.depth@.len(),
                self.width == old(self).width,
                self.height == old(self).height,
                self.colors@.len() == old(self).colors@.len(),
                forall|j: int| 0 <= j < self.colors@.len() ==> self.colors@[j] == color,
                forall|j: int| 0 <= j < k ==> self.depth@[j]@ == FX_SCALE as int,
            decreases dcount - k,
        {
            self.depth.set(k, Fx::one());
            k = k + 1;
        }
    }

    /// The packed color buffer, row-major from the top-left pixel.
    pub fn get_colors(&self) -> (r: &Vec<u32>)
        ensures
            r@ == self@.colors,
    {
        &self.colors
    }
}

} // verus!
