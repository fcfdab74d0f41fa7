//! Window-viewport state: the current window size in pixels, a target aspect
//! ratio, and the orthographic letterbox projection derived from them.
//!
//! The projection preserves the target aspect ratio inside whatever window
//! shape it is given: instead of stretching, it scales one axis down so that
//! the rendered area keeps the target ratio, and padding absorbs the
//! difference.  Both the ratio and the two scale factors are kept as exact
//! fractions of integers, so the letterboxing claims below are theorems
//! about integers; turning a scale into a floating-point matrix entry is the
//! graphics backend's business.

use vstd::prelude::*;

verus! {

/// An aspect ratio, width over height, as an exact fraction.
#[derive(Clone, Copy, Debug, PartialEq, Eq, Structural)]
pub struct Ratio {
    pub num: u32,
    pub den: u32,
}

/// Two ratios name the same proportion: `a.num / a.den == b.num / b.den`,
/// stated by cross-multiplication.
pub open spec fn ratio_equiv(a: Ratio, b: Ratio) -> bool {
    (a.num as int) * (b.den as int) == (b.num as int) * (a.den as int)
}

/// Decides [`ratio_equiv`].
pub fn same_ratio(a: Ratio, b: Ratio) -> (r: bool)
    ensures
        r == ratio_equiv(a, b),
{
    mul_u32(a.num, b.den) == mul_u32(b.num, a.den)
}

/// One scale factor of the projection, as an exact fraction `num / den`.
#[derive(Clone, Copy, Debug, PartialEq, Eq, Structural)]
pub struct Scale {
    pub num: u64,
    pub den: u64,
}

/// The projection matrix, reduced to what an orthographic letterbox
/// projection is: a scale on each axis.  Everything else in the 4-by-4
/// matrix the backend builds from it is constant.
#[derive(Clone, Copy, Debug, PartialEq, Eq, Structural)]
pub struct ProjMatrix {
    pub sx: Scale,
    pub sy: Scale,
}

/// The projection that a window of `w` by `h` pixels and a target ratio `r`
/// call for.  When the window is at least as wide as the target ratio, the
/// horizontal axis is scaled down and the vertical axis is left alone;
/// otherwise the other way around.  Degenerate inputs (a zero dimension or
/// ratio component) yield the identity scales.
pub open spec fn projection_spec(w: u32, h: u32, r: Ratio) -> ProjMatrix {
    if w == 0 || h == 0 || r.num == 0 || r.den == 0 {
        ProjMatrix { sx: Scale { num: 1, den: 1 }, sy: Scale { num: 1, den: 1 } }
    } else if (w as int) * (r.den as int) >= (h as int) * (r.num as int) {
        ProjMatrix {
            sx: Scale {
                num: ((r.num as int) * (h as int)) as u64,
                den: ((r.den as int) * (w as int)) as u64,
            },
            sy: Scale { num: 1, den: 1 },
        }
    } else {
        ProjMatrix {
            sx: Scale { num: 1, den: 1 },
            sy: Scale {
                num: ((r.den as int) * (w as int)) as u64,
                den: ((r.num as int) * (h as int)) as u64,
            },
        }
    }
}

/// The product of two 32-bit values, exactly, in 64 bits.
fn mul_u32(a: u32, b: u32) -> (r: u64)
    ensures
        r == (a as int) * (b as int),
{
    proof {
        assert((a as int) * (b as int) <= 0xffff_ffff * 0xffff_ffff) by (nonlinear_arith)
            requires
                a <= 0xffff_ffffu32,
                b <= 0xffff_ffffu32,
        ;
    }
    (a as u64) * (b as u64)
}

/// Tracks the window size and the target aspect ratio, and keeps the derived
/// projection matrix consistent with them: after any setter returns, no
/// stale matrix can be observed.
#[derive(Clone, Copy, Debug)]
pub struct ViewportState {
    /// Current window width in pixels.
    pub window_width: u32,
    /// Current window height in pixels.
    pub window_height: u32,
    /// The ratio the renderable area must keep, whatever the window shape.
    pub target_aspect_ratio: Ratio,
    /// The derived projection; never set directly.
    pub projection: ProjMatrix,
}

impl ViewportState {
    /// The projection matches the last-set size and ratio.
    pub open spec fn wf(self) -> bool {
        self.projection == projection_spec(
            self.window_width,
            self.window_height,
            self.target_aspect_ratio,
        )
    }

    /// A fresh viewport for a window of the given size; the target ratio
    /// starts as the window's own.
    pub fn new(window_width: u32, window_height: u32) -> (s: ViewportState)
        ensures
            s.window_width == window_width,
            s.window_height == window_height,
            s.target_aspect_ratio == (Ratio { num: window_width, den: window_height }),
            s.wf(),
    {
        let target = Ratio { num: window_width, den: window_height };
        ViewportState {
            window_width,
            window_height,
            target_aspect_ratio: target,
            projection: compute_projection(window_width, window_height, target),
        }
    }

    /// Records a resize and recomputes the projection.
    pub fn set_window_size(&mut self, width: u32, height: u32)
        ensures
            final(self).window_width == width,
            final(self).window_height == height,
            final(self).target_aspect_ratio == old(self).target_aspect_ratio,
            final(self).wf(),
    {
        self.window_width = width;
        self.window_height = height;
        self.projection = compute_projection(width, height, self.target_aspect_ratio);
    }

    /// Records a new target aspect ratio and recomputes the projection.
    pub fn set_target_aspect_ratio(&mut self, ratio: Ratio)
        ensures
            final(self).window_width == old(self).window_width,
            final(self).window_height == old(self).window_height,
            final(self).target_aspect_ratio == ratio,
            final(self).wf(),
    {
        self.target_aspect_ratio = ratio;
        self.projection = compute_projection(self.window_width, self.window_height, ratio);
    }

    /// The current target aspect ratio.
    pub fn get_target_aspect_ratio(&self) -> (r: Ratio)
        ensures
            r == self.target_aspect_ratio,
    {
        self.target_aspect_ratio
    }

    /// A pure read of the last-computed projection.
    pub fn projection_matrix(&self) -> (m: ProjMatrix)
        ensures
            m == self.projection,
    {
        self.projection
    }
}

/// Computes [`projection_spec`].
fn compute_projection(w: u32, h: u32, r: Ratio) -> (m: ProjMatrix)
    ensures
        m == projection_spec(w, h, r),
{
    if w == 0 || h == 0 || r.num == 0 || r.den == 0 {
        ProjMatrix { sx: Scale { num: 1, den: 1 }, sy: Scale { num: 1, den: 1 } }
    } else if mul_u32(w, r.den) >= mul_u32(h, r.num) {
        ProjMatrix {
            sx: Scale { num: mul_u32(r.num, h), den: mul_u32(r.den, w) },
            sy: Scale { num: 1, den: 1 },
        }
    } else {
        ProjMatrix {
            sx: Scale { num: 1, den: 1 },
            sy: Scale { num: mul_u32(r.den, w), den: mul_u32(r.num, h) },
        }
    }
}

/// The projection depends only on the current `(width, height, ratio)`
/// triple, never on the order of the calls that led to it: two viewports in
/// the same state carry the same matrix.
pub proof fn lemma_projection_depends_only_on_state(a: ViewportState, b: ViewportState)
    requires
        a.wf(),
        b.wf(),
        a.window_width == b.window_width,
        a.window_height == b.window_height,
        a.target_aspect_ratio == b.target_aspect_ratio,
    ensures
        a.projection == b.projection,
{
}

/// Letterboxing, not stretching: for a non-degenerate state, the rendered
/// area `(sx * width)` by `(sy * height)` keeps exactly the target aspect
/// ratio, both scales are at most one, and at least one axis is not scaled
/// at all, so the difference is absorbed as padding on a single axis.
pub proof fn lemma_projection_preserves_target_ratio(s: ViewportState)
    requires
        s.wf(),
        s.window_width > 0,
        s.window_height > 0,
        s.target_aspect_ratio.num > 0,
        s.target_aspect_ratio.den > 0,
    ensures
        (s.projection.sx.num as int) * (s.window_width as int) * (s.projection.sy.den as int) * (
        s.target_aspect_ratio.den as int) == (s.projection.sy.num as int) * (
        s.window_height as int) * (s.projection.sx.den as int) * (s.target_aspect_ratio.num as int),
        s.projection.sx.num <= s.projection.sx.den,
        s.projection.sy.num <= s.projection.sy.den,
        s.projection.sx.num == s.projection.sx.den || s.projection.sy.num == s.projection.sy.den,
{
    let w = s.window_width as int;
    let h = s.window_height as int;
    let rn = s.target_aspect_ratio.num as int;
    let rd = s.target_aspect_ratio.den as int;
    assert(0 <= rn * h <= 0xffff_ffff * 0xffff_ffff && 0 <= rd * w <= 0xffff_ffff * 0xffff_ffff)
        by (nonlinear_arith)
        requires
            0 < rn <= 0xffff_ffff,
            0 < h <= 0xffff_ffff,
            0 < rd <= 0xffff_ffff,
            0 < w <= 0xffff_ffff,
    ;
    if w * rd >= h * rn {
        assert(s.projection.sx.num as int == rn * h);
        assert(s.projection.sx.den as int == rd * w);
        assert((rn * h) * w * 1 * rd == 1 * h * (rd * w) * rn) by (nonlinear_arith);
        assert(rn * h <= rd * w) by (nonlinear_arith)
            requires
                w * rd >= h * rn,
        ;
    } else {
        assert(s.projection.sy.num as int == rd * w);
        assert(s.projection.sy.den as int == rn * h);
        assert(1 * w * (rn * h) * rd == (rd * w) * h * 1 * rn) by (nonlinear_arith);
        assert(rd * w <= rn * h) by (nonlinear_arith)
            requires
                w * rd < h * rn,
        ;
    }
}

} // verus!
