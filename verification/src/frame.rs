//! Resize requests and the frames the resize worker produces from them.
//!
//! A request carries everything the worker needs as plain values; the
//! frame it yields records the cell area the encoded image covers. The
//! byte-level escape encoding of that area belongs to the external
//! terminal-protocol encoder and is not modeled here.

use vstd::prelude::*;
use crate::errors::ResizeError;
use crate::geometry::{
    compute_resized, resized_height, resized_width, ResizePolicy, Viewport,
};
use crate::pixels::PixelBuffer;

verus! {

/// A terminal-protocol frame: the source image resized and encoded for a
/// specific viewport, covering `cols` by `rows` cells. Immutable once
/// produced; a later frame supersedes it, never mutates it.
#[derive(Clone, Copy, Debug, PartialEq, Eq, Structural)]
pub struct EncodedFrame {
    pub cols: u16,
    pub rows: u16,
}

/// One unit of work for the resize worker: produce the frame for this
/// source at this viewport under this policy. Ephemeral; one is created
/// per tick on which the wanted frame changed.
#[derive(Clone, Copy, Debug, PartialEq, Eq, Structural)]
pub struct ResizeRequest {
    pub source: PixelBuffer,
    pub viewport: Viewport,
    pub policy: ResizePolicy,
}

impl ResizeRequest {
    pub open spec fn wf(self) -> bool {
        self.source.wf()
    }
}

/// The frame a request for `src` at viewport `vp` under `policy` yields.
pub open spec fn encode_of(src: PixelBuffer, vp: Viewport, policy: ResizePolicy) -> EncodedFrame {
    EncodedFrame {
        cols: resized_width(
            policy,
            src.width as int,
            src.height as int,
            vp.cols as int,
            vp.rows as int,
        ) as u16,
        rows: resized_height(
            policy,
            src.width as int,
            src.height as int,
            vp.cols as int,
            vp.rows as int,
        ) as u16,
    }
}

/// The frame a request yields when it succeeds.
pub open spec fn frame_of(rq: ResizeRequest) -> EncodedFrame {
    encode_of(rq.source, rq.viewport, rq.policy)
}

/// Cell area of the frame that `policy` yields for `src` on `vp`.
pub fn encoded_size(src: PixelBuffer, vp: Viewport, policy: ResizePolicy) -> (r: (u16, u16))
    requires
        src.wf(),
        vp.is_drawable(),
    ensures
        r.0 == encode_of(src, vp, policy).cols,
        r.1 == encode_of(src, vp, policy).rows,
{
    compute_resized(policy, src.width, src.height, vp)
}

/// The resize worker's whole job for one request: reject an undrawable
/// viewport, otherwise produce the frame for it. Succeeds if and only if
/// the viewport has nonzero width and height; a failure is forwarded to
/// the holder rather than crashing the worker, so a later valid request
/// still succeeds.
pub fn process_request(req: &ResizeRequest) -> (r: Result<EncodedFrame, ResizeError>)
    requires
        req.wf(),
    ensures
        r is Ok <==> req.viewport.is_drawable(),
        r matches Ok(f) ==> f == encode_of(req.source, req.viewport, req.policy),
        r matches Err(e) ==> e == ResizeError::ZeroViewport,
{
    if !req.viewport.drawable() {
        return Err(ResizeError::ZeroViewport);
    }
    let size = encoded_size(req.source, req.viewport, req.policy);
    Ok(EncodedFrame { cols: size.0, rows: size.1 })
}

} // verus!
