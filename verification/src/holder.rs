//! The protocol state holder: owner of the frame currently on display.
//!
//! The holder is the single place where results from the decode task and
//! the resize worker meet the render loop. It keeps the lifecycle of the
//! displayed image as an explicit sum type, so that invalid combinations
//! (a frame without a source, a response without a request) are either
//! unrepresentable or excluded by its well-formedness invariant.

use vstd::prelude::*;
use crate::errors::ResizeError;
use crate::frame::{encode_of, EncodedFrame, ResizeRequest};
use crate::geometry::{ResizePolicy, Viewport};
use crate::pixels::PixelBuffer;

verus! {

/// Lifecycle of the displayed image: nothing decoded yet, decoded but
/// awaiting the first frame, or showing a frame.
#[derive(Clone, Copy, Debug, PartialEq, Eq, Structural)]
pub enum ProtocolState {
    /// The decode task has not delivered a pixel buffer yet.
    Empty,
    /// A pixel buffer arrived; the first encoded frame is still pending.
    Loading,
    /// An encoded frame is on display.
    Ready(EncodedFrame),
}

/// Broker between the background tasks and the render loop. It owns the
/// decoded pixel buffer once the decode task hands it over, issues resize
/// requests for the worker, and applies the worker's responses.
#[derive(Clone, Copy, Debug, PartialEq, Eq, Structural)]
pub struct ProtocolHolder {
    /// What the draw step currently shows.
    pub state: ProtocolState,
    /// The decoded source image, owned by the holder after decode.
    pub source: Option<PixelBuffer>,
    /// Whether a resize request has been issued whose response has not
    /// arrived yet; at most one request is ever in flight.
    pub inflight: bool,
    /// Resize policy chosen at startup, used for every request.
    pub policy: ResizePolicy,
}

impl ProtocolHolder {
    /// Well-formedness: a source exists exactly from the moment decoding
    /// completed, a request can be in flight only once a source exists,
    /// and a decoded source is never empty.
    pub open spec fn wf(self) -> bool {
        &&& self.state is Empty <==> self.source is None
        &&& self.inflight ==> self.source is Some
        &&& self.source matches Some(b) ==> b.wf()
    }

    /// The frame on display already corresponds to viewport `vp`, so no
    /// new request is needed for it. An undrawable viewport never counts
    /// as current: a request for it is issued and the worker rejects it.
    pub open spec fn displays_current(self, vp: Viewport) -> bool {
        &&& vp.is_drawable()
        &&& self.state matches ProtocolState::Ready(f) && self.source matches Some(b) && f
            == encode_of(b, vp, self.policy)
    }

    /// A tick at viewport `vp` should issue a resize request: a source
    /// exists, no request is in flight, and the displayed frame is not
    /// the one this viewport asks for.
    pub open spec fn wants_resize(self, vp: Viewport) -> bool {
        &&& self.source is Some
        &&& !self.inflight
        &&& !self.displays_current(vp)
    }

    /// Holder after the decode task hands over its pixel buffer: the
    /// state leaves `Empty` and the initial resize request is in flight.
    pub open spec fn replace_source_spec(self, buf: PixelBuffer) -> ProtocolHolder {
        ProtocolHolder {
            state: ProtocolState::Loading,
            source: Some(buf),
            inflight: true,
            policy: self.policy,
        }
    }

    /// The initial resize request issued when the source arrives, sized
    /// to the viewport of that moment.
    pub open spec fn initial_request_spec(self, buf: PixelBuffer, vp: Viewport) -> ResizeRequest {
        ResizeRequest { source: buf, viewport: vp, policy: self.policy }
    }

    /// Holder after one worker response: a successful resize replaces the
    /// displayed frame, a failed one leaves the previous frame displayed;
    /// either way the request is no longer in flight.
    pub open spec fn apply_result_spec(self, res: Result<EncodedFrame, ResizeError>) -> ProtocolHolder {
        match res {
            Ok(f) => ProtocolHolder {
                state: ProtocolState::Ready(f),
                source: self.source,
                inflight: false,
                policy: self.policy,
            },
            Err(_) => ProtocolHolder {
                state: self.state,
                source: self.source,
                inflight: false,
                policy: self.policy,
            },
        }
    }

    /// Holder after the draw step's request poll: unchanged but for the
    /// in-flight mark when a request goes out.
    pub open spec fn poll_spec(self, vp: Viewport) -> ProtocolHolder {
        if self.wants_resize(vp) {
            ProtocolHolder {
                state: self.state,
                source: self.source,
                inflight: true,
                policy: self.policy,
            }
        } else {
            self
        }
    }

    /// The request the draw step's poll issues, if any.
    pub open spec fn poll_request_spec(self, vp: Viewport) -> Option<ResizeRequest> {
        if self.wants_resize(vp) {
            Some(
                ResizeRequest {
                    source: self.source->0,
                    viewport: vp,
                    policy: self.policy,
                },
            )
        } else {
            None
        }
    }

    /// A fresh holder for one image session, before decoding completes.
    pub fn new(policy: ResizePolicy) -> (r: ProtocolHolder)
        ensures
            r.wf(),
            r.state is Empty,
            r.source is None,
            !r.inflight,
            r.policy == policy,
    {
        ProtocolHolder { state: ProtocolState::Empty, source: None, inflight: false, policy }
    }

    /// Take ownership of the decoded pixel buffer and issue the initial
    /// resize request, sized to the current viewport. Called exactly
    /// once per session, when the decode channel yields its value.
    pub fn replace_source(&mut self, buf: PixelBuffer, vp: Viewport) -> (req: ResizeRequest)
        requires
            old(self).wf(),
            old(self).state is Empty,
            buf.wf(),
        ensures
            final(self).wf(),
            *final(self) == old(self).replace_source_spec(buf),
            req == old(self).initial_request_spec(buf, vp),
    {
        self.state = ProtocolState::Loading;
        self.source = Some(buf);
        self.inflight = true;
        ResizeRequest { source: buf, viewport: vp, policy: self.policy }
    }

    /// Apply one response from the resize worker. On success the new
    /// frame replaces the displayed one; on failure the previous frame
    /// stays displayed and the session continues.
    pub fn apply_resize_result(&mut self, res: Result<EncodedFrame, ResizeError>)
        requires
            old(self).wf(),
            old(self).inflight,
        ensures
            final(self).wf(),
            *final(self) == old(self).apply_result_spec(res),
    {
        self.inflight = false;
        match res {
            Ok(f) => {
                self.state = ProtocolState::Ready(f);
            },
            Err(_) => {},
        }
    }

    /// Decide, during the draw step, whether the current viewport needs a
    /// new frame; if so, issue the request and mark it in flight.
    pub fn poll_resize(&mut self, vp: Viewport) -> (req: Option<ResizeRequest>)
        requires
            old(self).wf(),
        ensures
            final(self).wf(),
            *final(self) == old(self).poll_spec(vp),
            req == old(self).poll_request_spec(vp),
    {
        if self.inflight {
            return None;
        }
        match self.source {
            None => None,
            Some(buf) => {
                let needed = self.needs_new_frame(buf, vp);
                if needed {
                    self.inflight = true;
                    Some(ResizeRequest { source: buf, viewport: vp, policy: self.policy })
                } else {
                    None
                }
            },
        }
    }

    /// The displayed frame is absent or does not correspond to `vp`.
    fn needs_new_frame(&self, buf: PixelBuffer, vp: Viewport) -> (r: bool)
        requires
            self.source == Some(buf),
            buf.wf(),
        ensures
            r == !self.displays_current(vp),
    {
        if !vp.drawable() {
            return true;
        }
        match self.state {
            ProtocolState::Ready(f) => {
                let want = crate::frame::encoded_size(buf, vp, self.policy);
                !(f.cols == want.0 && f.rows == want.1)
            },
            _ => true,
        }
    }

    /// Read-only view of the lifecycle stage, for the draw step.
    pub fn current_frame(&self) -> (r: ProtocolState)
        ensures
            r == self.state,
    {
        self.state
    }
}

/// Holder after a whole run of successful resize responses, applied in
/// arrival order.
pub open spec fn apply_all_ok(h: ProtocolHolder, frames: Seq<EncodedFrame>) -> ProtocolHolder
    decreases frames.len(),
{
    if frames.len() == 0 {
        h
    } else {
        apply_all_ok(h.apply_result_spec(Ok(frames[0])), frames.drop_first())
    }
}

/// Law: when every response of a run succeeds, the frame on display
/// afterwards is the one of the last response alone; no earlier frame
/// survives, and the source and policy are untouched.
pub proof fn lemma_latest_response_wins(h: ProtocolHolder, frames: Seq<EncodedFrame>)
    requires
        frames.len() > 0,
    ensures
        apply_all_ok(h, frames).state == ProtocolState::Ready(frames.last()),
        apply_all_ok(h, frames).source == h.source,
        apply_all_ok(h, frames).policy == h.policy,
        !apply_all_ok(h, frames).inflight,
    decreases frames.len(),
{
    let h1 = h.apply_result_spec(Ok(frames[0]));
    assert(apply_all_ok(h, frames) == apply_all_ok(h1, frames.drop_first()));
    if frames.len() == 1 {
        assert(frames.drop_first().len() == 0);
        assert(apply_all_ok(h1, frames.drop_first()) == h1);
        assert(frames.last() == frames[0]);
    } else {
        lemma_latest_response_wins(h1, frames.drop_first());
        assert(frames.drop_first().last() == frames.last());
    }
}

/// Law: over a whole run of resize requests that all succeed, delivered
/// in issue order as the single-producer/single-consumer queues
/// guarantee, the frame on display afterwards is the encode of the last
/// request alone; no earlier request's frame is ever displayed after it.
pub proof fn lemma_fifo_latest_request_wins(h: ProtocolHolder, reqs: Seq<ResizeRequest>)
    requires
        reqs.len() > 0,
        forall|i: int| 0 <= i < reqs.len() ==> (#[trigger] reqs[i]).viewport.is_drawable(),
    ensures
        apply_all_ok(h, reqs.map_values(|rq: ResizeRequest| crate::frame::frame_of(rq))).state
            == ProtocolState::Ready(crate::frame::frame_of(reqs.last())),
{
    let frames = reqs.map_values(|rq: ResizeRequest| crate::frame::frame_of(rq));
    lemma_latest_response_wins(h, frames);
    assert(frames.last() == crate::frame::frame_of(reqs.last()));
}

} // verus!
