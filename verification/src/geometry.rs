//! Viewports, resize policies, and the arithmetic that maps a pixel
//! buffer onto a viewport.
//!
//! All dimensions are plain integers: a pixel buffer is measured in
//! pixels, a viewport in terminal cells. The byte-level encoding of a
//! frame belongs to the external terminal-protocol encoder; the library
//! only decides what size the frame covers.

use vstd::prelude::*;
use vstd::arithmetic::div_mod::{
    lemma_div_is_ordered, lemma_div_by_multiple, lemma_fundamental_div_mod,
    lemma_div_pos_is_pos,
};

verus! {

/// Target drawing area measured in terminal cells.
#[derive(Clone, Copy, Debug, PartialEq, Eq, Structural)]
pub struct Viewport {
    pub cols: u16,
    pub rows: u16,
}

impl Viewport {
    /// A viewport can show a frame only if both sides are nonzero.
    pub open spec fn is_drawable(self) -> bool {
        self.cols > 0 && self.rows > 0
    }

    pub fn new(cols: u16, rows: u16) -> (r: Viewport)
        ensures
            r.cols == cols,
            r.rows == rows,
    {
        Viewport { cols, rows }
    }

    pub fn drawable(&self) -> (r: bool)
        ensures
            r == self.is_drawable(),
    {
        self.cols > 0 && self.rows > 0
    }
}

/// How a source image is mapped onto a viewport.
#[derive(Clone, Copy, Debug, PartialEq, Eq, Structural)]
pub enum ResizePolicy {
    /// Shrink the image, if needed, so it fits the viewport; never grow it.
    Fit,
    /// Truncate the image to the viewport.
    Crop,
    /// Shrink or grow the image so it fills the viewport in one dimension.
    Scale,
}

/// Clamp a computed side length to at least one cell, so that rounding
/// during scaling never produces an empty frame.
pub open spec fn at_least_one(x: int) -> int {
    if x < 1 {
        1
    } else {
        x
    }
}

pub open spec fn min_side(a: int, b: int) -> int {
    if a < b {
        a
    } else {
        b
    }
}

/// Width of the largest area with the source's aspect ratio whose sides
/// stay within the bound; the binding side is taken in full and the other
/// side is scaled in proportion, rounding down but never below one.
pub open spec fn scaled_width(iw: int, ih: int, tw: int, th: int) -> int
    recommends
        iw > 0,
        ih > 0,
{
    if iw * th <= ih * tw {
        at_least_one((iw * th) / ih)
    } else {
        tw
    }
}

/// Height counterpart of [`scaled_width`].
pub open spec fn scaled_height(iw: int, ih: int, tw: int, th: int) -> int
    recommends
        iw > 0,
        ih > 0,
{
    if iw * th <= ih * tw {
        th
    } else {
        at_least_one((ih * tw) / iw)
    }
}

/// Width of the frame a resize request produces for a source of `iw` by
/// `ih` pixels on a viewport of `tw` by `th` cells.
pub open spec fn resized_width(policy: ResizePolicy, iw: int, ih: int, tw: int, th: int) -> int {
    match policy {
        ResizePolicy::Fit => if iw <= tw && ih <= th {
            iw
        } else {
            scaled_width(iw, ih, tw, th)
        },
        ResizePolicy::Crop => min_side(iw, tw),
        ResizePolicy::Scale => scaled_width(iw, ih, tw, th),
    }
}

/// Height counterpart of [`resized_width`].
pub open spec fn resized_height(policy: ResizePolicy, iw: int, ih: int, tw: int, th: int) -> int {
    match policy {
        ResizePolicy::Fit => if iw <= tw && ih <= th {
            ih
        } else {
            scaled_height(iw, ih, tw, th)
        },
        ResizePolicy::Crop => min_side(ih, th),
        ResizePolicy::Scale => scaled_height(iw, ih, tw, th),
    }
}

/// The scaled sides stay within the bound and are at least one cell.
proof fn lemma_scaled_within_bounds(iw: int, ih: int, tw: int, th: int)
    requires
        iw > 0,
        ih > 0,
        tw > 0,
        th > 0,
    ensures
        1 <= scaled_width(iw, ih, tw, th) <= tw,
        1 <= scaled_height(iw, ih, tw, th) <= th,
{
    if iw * th <= ih * tw {
        lemma_div_is_ordered(iw * th, ih * tw, ih);
        lemma_div_by_multiple(tw, ih);
        assert(ih * tw == tw * ih) by (nonlinear_arith);
        assert((iw * th) / ih <= tw);
    } else {
        lemma_div_is_ordered(ih * tw, iw * th, iw);
        lemma_div_by_multiple(th, iw);
        assert(iw * th == th * iw) by (nonlinear_arith);
        assert((ih * tw) / iw <= th);
    }
}

/// The resized sides stay within the viewport and are at least one cell,
/// under every policy.
pub proof fn lemma_resized_within_bounds(policy: ResizePolicy, iw: int, ih: int, tw: int, th: int)
    requires
        iw > 0,
        ih > 0,
        tw > 0,
        th > 0,
    ensures
        1 <= resized_width(policy, iw, ih, tw, th) <= tw,
        1 <= resized_height(policy, iw, ih, tw, th) <= th,
{
    lemma_scaled_within_bounds(iw, ih, tw, th);
}

/// `Fit` never grows the image: each side of the frame is bounded by the
/// corresponding side of the source.
pub proof fn lemma_fit_never_grows(iw: int, ih: int, tw: int, th: int)
    requires
        iw > 0,
        ih > 0,
        tw > 0,
        th > 0,
    ensures
        resized_width(ResizePolicy::Fit, iw, ih, tw, th) <= iw,
        resized_height(ResizePolicy::Fit, iw, ih, tw, th) <= ih,
{
    if iw <= tw && ih <= th {
    } else if iw * th <= ih * tw {
        // The height is the binding side. The image does not fit, yet the
        // cross products say the width fits at full height, so th <= ih.
        assert(th <= ih && iw * th <= iw * ih) by (nonlinear_arith)
            requires
                iw > 0,
                ih > 0,
                tw > 0,
                th > 0,
                iw * th <= ih * tw,
                !(iw <= tw && ih <= th),
        ;
        lemma_div_is_ordered(iw * th, iw * ih, ih);
        assert(iw * ih == ih * iw) by (nonlinear_arith);
        lemma_div_by_multiple(iw, ih);
        assert((iw * th) / ih <= iw);
    } else {
        assert(tw <= iw && ih * tw <= ih * iw) by (nonlinear_arith)
            requires
                iw > 0,
                ih > 0,
                tw > 0,
                th > 0,
                !(iw * th <= ih * tw),
                !(iw <= tw && ih <= th),
        ;
        lemma_div_is_ordered(ih * tw, ih * iw, iw);
        assert(ih * iw == iw * ih) by (nonlinear_arith);
        lemma_div_by_multiple(ih, iw);
        assert((ih * tw) / iw <= ih);
    }
}

/// Scaling preserves the aspect ratio up to rounding: the cross products
/// of the frame's sides and the source's sides differ by less than one
/// source side in each direction.
pub proof fn lemma_scale_preserves_aspect(iw: int, ih: int, tw: int, th: int)
    requires
        iw > 0,
        ih > 0,
        tw > 0,
        th > 0,
    ensures
        scaled_width(iw, ih, tw, th) * ih <= iw * scaled_height(iw, ih, tw, th) + iw + ih,
        iw * scaled_height(iw, ih, tw, th) <= scaled_width(iw, ih, tw, th) * ih + iw + ih,
{
    if iw * th <= ih * tw {
        let q = (iw * th) / ih;
        let m = (iw * th) % ih;
        lemma_fundamental_div_mod(iw * th, ih);
        assert(0 <= iw * th) by (nonlinear_arith)
            requires
                iw > 0,
                th > 0,
        ;
        lemma_div_pos_is_pos(iw * th, ih);
        let w = at_least_one(q);
        assert(w * ih <= iw * th + iw + ih && iw * th <= w * ih + iw + ih) by (nonlinear_arith)
            requires
                iw > 0,
                ih > 0,
                0 <= q,
                w == (if q < 1 { 1int } else { q }),
                iw * th == ih * q + m,
                0 <= m < ih,
        ;
    } else {
        let q = (ih * tw) / iw;
        let m = (ih * tw) % iw;
        lemma_fundamental_div_mod(ih * tw, iw);
        assert(0 <= ih * tw) by (nonlinear_arith)
            requires
                ih > 0,
                tw > 0,
        ;
        lemma_div_pos_is_pos(ih * tw, iw);
        let h = at_least_one(q);
        assert(tw * ih <= iw * h + iw + ih && iw * h <= tw * ih + iw + ih) by (nonlinear_arith)
            requires
                iw > 0,
                ih > 0,
                0 <= q,
                h == (if q < 1 { 1int } else { q }),
                ih * tw == iw * q + m,
                0 <= m < iw,
        ;
    }
}

/// Compute the size of the frame that `policy` produces for a source of
/// `width` by `height` pixels on viewport `vp`. Returns `(cols, rows)`.
pub fn compute_resized(policy: ResizePolicy, width: u32, height: u32, vp: Viewport) -> (r: (
    u16,
    u16,
))
    requires
        width > 0,
        height > 0,
        vp.is_drawable(),
    ensures
        r.0 as int == resized_width(policy, width as int, height as int, vp.cols as int, vp.rows as int),
        r.1 as int == resized_height(policy, width as int, height as int, vp.cols as int, vp.rows as int),
{
    match policy {
        ResizePolicy::Fit => {
            if width <= vp.cols as u32 && height <= vp.rows as u32 {
                (width as u16, height as u16)
            } else {
                scale_to_viewport(width, height, vp)
            }
        },
        ResizePolicy::Crop => {
            let c: u16 = if width <= vp.cols as u32 {
                width as u16
            } else {
                vp.cols
            };
            let r: u16 = if height <= vp.rows as u32 {
                height as u16
            } else {
                vp.rows
            };
            (c, r)
        },
        ResizePolicy::Scale => scale_to_viewport(width, height, vp),
    }
}

/// Largest frame with the source's aspect ratio inside the viewport.
fn scale_to_viewport(width: u32, height: u32, vp: Viewport) -> (r: (u16, u16))
    requires
        width > 0,
        height > 0,
        vp.is_drawable(),
    ensures
        r.0 as int == scaled_width(width as int, height as int, vp.cols as int, vp.rows as int),
        r.1 as int == scaled_height(width as int, height as int, vp.cols as int, vp.rows as int),
{
    proof {
        lemma_scaled_within_bounds(width as int, height as int, vp.cols as int, vp.rows as int);
    }
    let iw: u64 = width as u64;
    let ih: u64 = height as u64;
    let tw: u64 = vp.cols as u64;
    let th: u64 = vp.rows as u64;
    assert(iw * th <= 0xFFFF_FFFFu64 * 0xFFFFu64 && ih * tw <= 0xFFFF_FFFFu64 * 0xFFFFu64)
        by (nonlinear_arith)
        requires
            iw <= 0xFFFF_FFFFu64,
            ih <= 0xFFFF_FFFFu64,
            tw <= 0xFFFFu64,
            th <= 0xFFFFu64,
    ;
    if iw * th <= ih * tw {
        let q: u64 = (iw * th) / ih;
        let w: u64 = if q < 1 {
            1
        } else {
            q
        };
        (w as u16, vp.rows)
    } else {
        let q: u64 = (ih * tw) / iw;
        let h: u64 = if q < 1 {
            1
        } else {
            q
        };
        (vp.cols, h as u16)
    }
}

} // verus!
