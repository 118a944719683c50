use imgview::errors::{DecodeError, ResizeError};
use imgview::frame::process_request;
use imgview::geometry::{ResizePolicy, Viewport};
use imgview::holder::{ProtocolHolder, ProtocolState};
use imgview::pixels::PixelBuffer;
use imgview::session::{DrawPlan, LoopControl, Session};

fn decoded(width: u32, height: u32) -> PixelBuffer {
    PixelBuffer::new(width, height).expect("a decoded image is never empty")
}

#[test]
fn pixel_buffer_rejects_an_empty_grid() {
    assert!(PixelBuffer::new(0, 64).is_none());
    assert!(PixelBuffer::new(64, 0).is_none());
    let b = decoded(64, 48);
    assert_eq!(b.width, 64);
    assert_eq!(b.height, 48);
}

#[test]
fn decode_completion_issues_exactly_one_initial_request() {
    let vp = Viewport::new(80, 24);
    let mut s = Session::new(ResizePolicy::Fit);
    assert!(matches!(s.holder.state, ProtocolState::Empty));

    let out = s.tick(Some(Ok(decoded(64, 64))), None, false, false, vp);
    assert!(matches!(out.control, LoopControl::Proceed));
    let req = out.request.expect("decode completion must issue the initial request");
    assert_eq!(req.source, decoded(64, 64));
    assert_eq!(req.viewport, vp);
    assert_eq!(req.policy, ResizePolicy::Fit);
    assert!(matches!(s.holder.state, ProtocolState::Loading));
    assert!(s.holder.inflight);

    // While that request is in flight, the next tick issues no second one.
    let out2 = s.tick(None, None, false, false, vp);
    assert!(out2.request.is_none());
}

#[test]
fn latest_arrived_response_is_the_one_displayed() {
    let vp1 = Viewport::new(80, 24);
    let vp2 = Viewport::new(40, 12);
    let mut h = ProtocolHolder::new(ResizePolicy::Fit);
    let r1 = h.replace_source(decoded(64, 64), vp1);
    let f1 = process_request(&r1).expect("drawable viewport");
    h.apply_resize_result(Ok(f1));
    assert_eq!(h.current_frame(), ProtocolState::Ready(f1));

    let r2 = h.poll_resize(vp2).expect("a smaller viewport needs a new frame");
    let f2 = process_request(&r2).expect("drawable viewport");
    assert_ne!(f1, f2);
    h.apply_resize_result(Ok(f2));
    assert_eq!(h.current_frame(), ProtocolState::Ready(f2));
}

#[test]
fn zero_viewport_fails_and_previous_frame_survives() {
    let vp = Viewport::new(80, 24);
    let mut h = ProtocolHolder::new(ResizePolicy::Fit);
    let r1 = h.replace_source(decoded(64, 64), vp);
    let f1 = process_request(&r1).expect("drawable viewport");
    h.apply_resize_result(Ok(f1));

    // The terminal collapses to zero rows: the request still goes out,
    // the worker rejects it, and the old frame stays on display.
    let r2 = h.poll_resize(Viewport::new(80, 0)).expect("zero viewport asks for a frame");
    let err = process_request(&r2).expect_err("zero viewport must fail");
    assert_eq!(err, ResizeError::ZeroViewport);
    h.apply_resize_result(Err(err));
    assert_eq!(h.current_frame(), ProtocolState::Ready(f1));

    // A later valid request still succeeds: the worker was not killed.
    let r3 = h.poll_resize(Viewport::new(40, 12)).expect("valid viewport after failure");
    let f3 = process_request(&r3).expect("drawable viewport");
    h.apply_resize_result(Ok(f3));
    assert_eq!(h.current_frame(), ProtocolState::Ready(f3));
}

#[test]
fn resize_failure_is_reported_and_the_loop_continues() {
    let vp = Viewport::new(80, 24);
    let mut s = Session::new(ResizePolicy::Fit);
    let out = s.tick(Some(Ok(decoded(64, 64))), None, false, false, vp);
    assert!(out.request.is_some());

    // The worker rejected the request (the viewport had collapsed): the
    // loop is told, goes on, and asks again for the current viewport.
    let out = s.tick(None, Some(Err(ResizeError::ZeroViewport)), false, false, vp);
    assert_eq!(out.control, LoopControl::Proceed);
    assert_eq!(out.resize_failure, Some(ResizeError::ZeroViewport));
    assert_eq!(out.draw, Some(DrawPlan::Spinner(0)));
    assert!(out.request.is_some());
}

#[test]
fn encoder_failure_also_keeps_the_previous_frame() {
    let vp = Viewport::new(80, 24);
    let mut h = ProtocolHolder::new(ResizePolicy::Scale);
    let r1 = h.replace_source(decoded(64, 64), vp);
    let f1 = process_request(&r1).expect("drawable viewport");
    h.apply_resize_result(Ok(f1));

    let _r2 = h.poll_resize(Viewport::new(40, 12)).expect("new viewport");
    h.apply_resize_result(Err(ResizeError::EncodeFailed));
    assert_eq!(h.current_frame(), ProtocolState::Ready(f1));
}

#[test]
fn corrupt_image_terminates_the_session_with_decode_error() {
    let vp = Viewport::new(80, 24);
    let mut s = Session::new(ResizePolicy::Fit);
    let out = s.tick(Some(Err(DecodeError::CorruptData)), None, false, false, vp);
    assert_eq!(out.control, LoopControl::Fatal(DecodeError::CorruptData));
    assert!(out.request.is_none());
    assert!(out.draw.is_none());
    // No partial frame ever reaches Ready.
    assert!(matches!(s.holder.state, ProtocolState::Empty));
}

#[test]
fn unreadable_source_terminates_the_session_too() {
    let vp = Viewport::new(80, 24);
    let mut s = Session::new(ResizePolicy::Fit);
    let out = s.tick(Some(Err(DecodeError::SourceUnreadable)), None, false, false, vp);
    assert_eq!(out.control, LoopControl::Fatal(DecodeError::SourceUnreadable));
    let out = s.tick(Some(Err(DecodeError::UnsupportedFormat)), None, false, false, vp);
    assert_eq!(out.control, LoopControl::Fatal(DecodeError::UnsupportedFormat));
}

#[test]
fn any_key_exits_while_still_loading() {
    let vp = Viewport::new(80, 24);
    let mut s = Session::new(ResizePolicy::Fit);
    let out = s.tick(None, None, false, true, vp);
    assert_eq!(out.control, LoopControl::Exit);

    // Also immediately after decode completed, before any frame arrived.
    let mut s = Session::new(ResizePolicy::Fit);
    s.tick(Some(Ok(decoded(64, 64))), None, false, false, vp);
    let out = s.tick(None, None, false, true, vp);
    assert_eq!(out.control, LoopControl::Exit);
}

#[test]
fn drawing_twice_between_ticks_shows_the_same_output() {
    let vp = Viewport::new(80, 24);
    let mut s = Session::new(ResizePolicy::Fit);
    let out1 = s.tick(None, None, false, false, vp);
    let out2 = s.tick(None, None, false, false, vp);
    assert_eq!(out1.draw, Some(DrawPlan::Spinner(0)));
    assert_eq!(out1.draw, out2.draw);

    // The same holds once a frame is on display.
    let mut s = Session::new(ResizePolicy::Fit);
    let out = s.tick(Some(Ok(decoded(64, 64))), None, false, false, vp);
    let f = process_request(&out.request.unwrap()).unwrap();
    let out1 = s.tick(None, Some(Ok(f)), false, false, vp);
    let out2 = s.tick(None, None, false, false, vp);
    assert_eq!(out1.draw, Some(DrawPlan::Image(f)));
    assert_eq!(out1.draw, out2.draw);
}

#[test]
fn throbber_advances_only_while_no_frame_is_ready() {
    let vp = Viewport::new(80, 24);
    let mut s = Session::new(ResizePolicy::Fit);
    let out = s.tick(None, None, true, false, vp);
    assert_eq!(out.draw, Some(DrawPlan::Spinner(1)));
    assert_eq!(s.throbber.count, 1);

    let out = s.tick(Some(Ok(decoded(64, 64))), None, true, false, vp);
    assert_eq!(out.draw, Some(DrawPlan::Spinner(2)));

    let f = process_request(&out.request.unwrap()).unwrap();
    let out = s.tick(None, Some(Ok(f)), true, false, vp);
    assert_eq!(out.draw, Some(DrawPlan::Image(f)));
    // A ready frame freezes the spinner.
    assert_eq!(s.throbber.count, 2);
}

#[test]
fn throbber_counter_wraps_at_the_top() {
    let mut s = Session::new(ResizePolicy::Fit);
    s.throbber.count = u32::MAX;
    s.throbber.calc_next();
    assert_eq!(s.throbber.count, 0);
}

#[test]
fn cat_png_scenario_fit_into_80_by_24() {
    // A 64 by 64 source, an 80 by 24 cell viewport, policy Fit.
    let vp = Viewport::new(80, 24);
    let mut s = Session::new(ResizePolicy::Fit);

    // Decode completes: the initial request goes out for the viewport.
    let out = s.tick(Some(Ok(decoded(64, 64))), None, false, false, vp);
    let req = out.request.expect("initial request");
    assert_eq!(req.viewport, vp);

    // The worker encodes a frame within the viewport, aspect preserved.
    let f = process_request(&req).expect("drawable viewport");
    assert_eq!((f.cols, f.rows), (24, 24));
    assert!(f.cols <= 80 && f.rows <= 24);

    // The response arrives: the holder becomes ready and the next draw
    // shows the frame, not the throbber.
    let out = s.tick(None, Some(Ok(f)), false, false, vp);
    assert!(matches!(s.holder.state, ProtocolState::Ready(_)));
    assert_eq!(out.draw, Some(DrawPlan::Image(f)));
    let out = s.tick(None, None, true, false, vp);
    assert_eq!(out.draw, Some(DrawPlan::Image(f)));
}
