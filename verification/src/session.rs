//! One image session as seen by the render loop.
//!
//! The loop itself lives outside the library: it owns the terminal, the
//! decode thread and the resize worker, and on every tick it hands the
//! library whatever the channels yielded, whether the throbber interval
//! elapsed, whether a key arrived, and the current viewport. The library
//! decides everything: how the holder advances, what to draw, which
//! resize request to send, and whether the loop goes on, exits, or dies
//! with a decode error. Every step is a plain function of its inputs, so
//! the loop never blocks on the background tasks.

use vstd::prelude::*;
use crate::errors::{DecodeError, ResizeError};
use crate::frame::{EncodedFrame, ResizeRequest};
use crate::geometry::{ResizePolicy, Viewport};
use crate::holder::{ProtocolHolder, ProtocolState};
use crate::pixels::PixelBuffer;

verus! {

/// Animation counter of the loading spinner, advanced on a fixed
/// wall-clock cadence while no frame is ready. Purely cosmetic.
#[derive(Clone, Copy, Debug, PartialEq, Eq, Structural)]
pub struct ThrobberState {
    pub count: u32,
}

/// The counter after one advance: one step further, wrapping at the top.
pub open spec fn next_count(c: u32) -> u32 {
    if c == u32::MAX {
        0
    } else {
        (c + 1) as u32
    }
}

impl ThrobberState {
    pub fn new() -> (r: ThrobberState)
        ensures
            r.count == 0,
    {
        ThrobberState { count: 0 }
    }

    /// Advance the animation by one step.
    pub fn calc_next(&mut self)
        ensures
            final(self).count == next_count(old(self).count),
    {
        if self.count == u32::MAX {
            self.count = 0;
        } else {
            self.count = self.count + 1;
        }
    }
}

/// What the draw step shows this tick: the ready frame, or the spinner
/// at its current animation step.
#[derive(Clone, Copy, Debug, PartialEq, Eq, Structural)]
pub enum DrawPlan {
    Image(EncodedFrame),
    Spinner(u32),
}

/// How the loop proceeds after a tick.
#[derive(Clone, Copy, Debug, PartialEq, Eq, Structural)]
pub enum LoopControl {
    /// Nothing ended the session: draw again next tick.
    Proceed,
    /// A key arrived: leave the loop cleanly.
    Exit,
    /// The decode task failed: the session terminates with its error.
    Fatal(DecodeError),
}

/// Everything one tick hands back to the loop.
#[derive(Clone, Copy, Debug, PartialEq, Eq, Structural)]
pub struct TickOutput {
    pub control: LoopControl,
    /// Request to enqueue for the resize worker, if the tick issued one.
    pub request: Option<ResizeRequest>,
    /// What to draw; absent only when decoding failed, since the session
    /// aborts before the draw step.
    pub draw: Option<DrawPlan>,
    /// A failed resize drained this tick, for the loop to report; it
    /// never ends the session, and the previous frame stays displayed.
    pub resize_failure: Option<ResizeError>,
}

/// One image session: the holder plus the spinner the loop animates.
#[derive(Clone, Copy, Debug, PartialEq, Eq, Structural)]
pub struct Session {
    pub holder: ProtocolHolder,
    pub throbber: ThrobberState,
}

/// The holder after both completion channels are drained: first the
/// decode result, then the resize response, in the loop's fixed order.
pub open spec fn holder_after_events(
    h: ProtocolHolder,
    decode: Option<Result<PixelBuffer, DecodeError>>,
    resize: Option<Result<EncodedFrame, ResizeError>>,
) -> ProtocolHolder {
    let h1 = match decode {
        Some(Ok(b)) => h.replace_source_spec(b),
        _ => h,
    };
    match resize {
        Some(res) => h1.apply_result_spec(res),
        None => h1,
    }
}

/// The spinner after a tick: one step further when the throbber interval
/// elapsed and no frame is on display yet.
pub open spec fn throbber_after(t: ThrobberState, h: ProtocolHolder, elapsed: bool) -> ThrobberState {
    if elapsed && !(h.state is Ready) {
        ThrobberState { count: next_count(t.count) }
    } else {
        t
    }
}

/// What the draw step shows for a holder and spinner: the frame when one
/// is ready, the spinner otherwise.
pub open spec fn plan_for(h: ProtocolHolder, t: ThrobberState) -> DrawPlan {
    match h.state {
        ProtocolState::Ready(f) => DrawPlan::Image(f),
        _ => DrawPlan::Spinner(t.count),
    }
}

impl Session {
    pub open spec fn wf(self) -> bool {
        self.holder.wf()
    }

    /// A fresh session: decode pending, spinner at its first step.
    pub fn new(policy: ResizePolicy) -> (r: Session)
        ensures
            r.wf(),
            r.holder.state is Empty,
            !r.holder.inflight,
            r.holder.policy == policy,
            r.throbber.count == 0,
    {
        Session { holder: ProtocolHolder::new(policy), throbber: ThrobberState::new() }
    }

    /// One tick of the render loop, in the loop's fixed order: drain the
    /// decode channel, drain the resize channel, advance the spinner,
    /// plan the draw (issuing a resize request when the viewport asks
    /// for a frame not on display), and let a key end the loop.
    ///
    /// A decode failure aborts the tick before anything is drawn or
    /// mutated: the session terminates with that error and no frame ever
    /// becomes ready from it. A resize failure merely keeps the previous
    /// frame displayed. A key always ends the loop, whether or not a
    /// frame ever arrived.
    pub fn tick(
        &mut self,
        decode: Option<Result<PixelBuffer, DecodeError>>,
        resize: Option<Result<EncodedFrame, ResizeError>>,
        elapsed: bool,
        key_pressed: bool,
        vp: Viewport,
    ) -> (r: TickOutput)
        requires
            old(self).wf(),
            decode matches Some(Ok(b)) ==> b.wf(),
            decode is Some ==> old(self).holder.state is Empty,
            resize is Some ==> old(self).holder.inflight,
        ensures
            final(self).wf(),
            decode matches Some(Err(e)) ==> r == (TickOutput {
                control: LoopControl::Fatal(e),
                request: None,
                draw: None,
                resize_failure: None,
            }) && *final(self) == *old(self),
            !(decode matches Some(Err(_))) ==> ({
                let h2 = holder_after_events(old(self).holder, decode, resize);
                let t2 = throbber_after(old(self).throbber, h2, elapsed);
                &&& final(self).holder == h2.poll_spec(vp)
                &&& final(self).throbber == t2
                &&& r.draw == Some(plan_for(h2, t2))
                &&& r.request == (match decode {
                    Some(Ok(b)) => Some(old(self).holder.initial_request_spec(b, vp)),
                    _ => h2.poll_request_spec(vp),
                })
                &&& r.control == (if key_pressed {
                    LoopControl::Exit
                } else {
                    LoopControl::Proceed
                })
                &&& r.resize_failure == (match resize {
                    Some(Err(e)) => Some(e),
                    _ => None,
                })
            }),
    {
        let mut request: Option<ResizeRequest> = None;
        match decode {
            Some(Err(e)) => {
                return TickOutput {
                    control: LoopControl::Fatal(e),
                    request: None,
                    draw: None,
                    resize_failure: None,
                };
            },
            Some(Ok(buf)) => {
                request = Some(self.holder.replace_source(buf, vp));
            },
            None => {},
        }
        let mut resize_failure: Option<ResizeError> = None;
        if let Some(res) = resize {
            if let Err(e) = res {
                resize_failure = Some(e);
            }
            self.holder.apply_resize_result(res);
        }
        let state = self.holder.current_frame();
        let ready = matches!(state, ProtocolState::Ready(_));
        if elapsed && !ready {
            self.throbber.calc_next();
        }
        let draw = match state {
            ProtocolState::Ready(f) => DrawPlan::Image(f),
            _ => DrawPlan::Spinner(self.throbber.count),
        };
        let polled = self.holder.poll_resize(vp);
        if request.is_none() {
            request = polled;
        }
        let control = if key_pressed {
            LoopControl::Exit
        } else {
            LoopControl::Proceed
        };
        TickOutput { control, request, draw: Some(draw), resize_failure }
    }
}

/// Law: the tick that drains a successful decode moves the holder out of
/// `Empty` into `Loading`, hands it the pixel buffer, and puts exactly
/// one resize request in flight — the initial one; the draw step's poll
/// of the same tick issues no second request.
pub proof fn lemma_decode_completion_issues_one_request(
    h: ProtocolHolder,
    b: PixelBuffer,
    vp: Viewport,
)
    requires
        h.wf(),
        h.state is Empty,
        b.wf(),
    ensures
        ({
            let h2 = holder_after_events(h, Some(Ok(b)), None);
            &&& h2.state is Loading
            &&& h2.source == Some(b)
            &&& h2.inflight
            &&& h2.poll_spec(vp) == h2
            &&& h2.poll_request_spec(vp) is None
        }),
{
}

/// Law: once the decode tick has issued the initial request and the
/// worker's successful response is drained on a later tick, the holder
/// displays exactly the frame of that request; and while the viewport
/// stays the same, the pipeline is quiescent: that frame is current and
/// no further request goes out.
pub proof fn lemma_first_frame_becomes_ready(h: ProtocolHolder, b: PixelBuffer, vp: Viewport)
    requires
        h.wf(),
        h.state is Empty,
        b.wf(),
        vp.is_drawable(),
    ensures
        ({
            let req = h.initial_request_spec(b, vp);
            let h2 = holder_after_events(h, Some(Ok(b)), None).poll_spec(vp);
            let h3 = holder_after_events(h2, None, Some(Ok(crate::frame::frame_of(req)))).poll_spec(
                vp,
            );
            &&& h3.state == ProtocolState::Ready(crate::frame::frame_of(req))
            &&& h3.displays_current(vp)
            &&& h3.poll_request_spec(vp) is None
        }),
{
}

/// Law: a tick that drains no channel data and crosses no throbber
/// interval leaves the drawn output exactly as it was, and so does the
/// tick after it: drawing twice between ticks shows the same thing, with
/// no hidden mutation on read.
pub proof fn lemma_draw_idempotent(s: Session, vp: Viewport)
    requires
        s.wf(),
    ensures
        ({
            let h2 = holder_after_events(s.holder, None, None);
            let t2 = throbber_after(s.throbber, h2, false);
            let h3 = holder_after_events(h2.poll_spec(vp), None, None);
            let t3 = throbber_after(t2, h3, false);
            &&& plan_for(h2, t2) == plan_for(s.holder, s.throbber)
            &&& plan_for(h3, t3) == plan_for(h2, t2)
            &&& h2.poll_spec(vp).state == s.holder.state
        }),
{
}

} // verus!
