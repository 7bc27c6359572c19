use demo_panel::browser::DemoClientState;
use demo_panel::clock::{clock_text, format_timestamp};
use demo_panel::event::{wait_deadline, wait_step, WaitError, WaitStep, FRAME_EVENT_NAME};
use demo_panel::frame_buffer::FrameBuffer;
use demo_panel::history::{push_bounded, PANEL_HISTORY_LIMIT, SERVER_HISTORY_LIMIT};
use demo_panel::names::to_posix_name;
use demo_panel::shm::SHM_NAME;
use demo_panel::signaling::{
    answer_reply, ice_reply, offer_reply, ErrorResponse, IceResponse, OfferOutcome, SdpResponse,
    SignalingBody,
};

#[test]
fn posix_names() {
    assert_eq!(to_posix_name(SHM_NAME), "/local_demoframe");
    assert_eq!(to_posix_name(FRAME_EVENT_NAME), "/local_demoframeready");
    assert_eq!(to_posix_name(""), "/");
    assert_eq!(to_posix_name("A-b/Ü9"), "/a_b__9");
}

#[test]
fn deadlines_carry_into_seconds() {
    assert_eq!(wait_deadline(10, 0, 100), (10, 100_000_000));
    assert_eq!(wait_deadline(10, 950_000_000, 100), (11, 50_000_000));
    assert_eq!(wait_deadline(0, 999_999_999, 2_001), (3, 999_999));
    assert_eq!(wait_deadline(5, 0, 0), (5, 0));
}

#[test]
fn wait_steps() {
    assert_eq!(wait_step(0, WaitError::Other), WaitStep::Finish(true));
    assert_eq!(wait_step(-1, WaitError::TimedOut), WaitStep::Finish(false));
    assert_eq!(wait_step(-1, WaitError::Interrupted), WaitStep::Retry);
    assert_eq!(wait_step(-1, WaitError::Other), WaitStep::Finish(false));
}

#[test]
fn clock_and_timestamps() {
    assert_eq!(clock_text(0), "00:00:00");
    assert_eq!(clock_text(3661), "01:01:01");
    assert_eq!(clock_text(86_399), "23:59:59");
    assert_eq!(clock_text(86_400 + 45), "00:00:45");
    assert_eq!(format_timestamp(0), "--");
    assert_eq!(format_timestamp(-5), "--");
    assert_eq!(format_timestamp(3_723_000), "01:02:03");
    assert_eq!(format_timestamp(999), "00:00:00");
    let ms: i64 = 1_700_000_123_456;
    assert_eq!(format_timestamp(ms), clock_text((ms / 1000) as u64));
}

#[test]
fn histories_are_bounded() {
    assert_eq!(SERVER_HISTORY_LIMIT, 30);
    assert_eq!(PANEL_HISTORY_LIMIT, 60);
    let mut h: Vec<u32> = Vec::new();
    for i in 0..35 {
        push_bounded(&mut h, i, SERVER_HISTORY_LIMIT);
    }
    assert_eq!(h.len(), 30);
    assert_eq!(h[0], 5);
    assert_eq!(*h.last().unwrap(), 34);
    let mut g = vec![1, 2];
    push_bounded(&mut g, 3, 5);
    assert_eq!(g, vec![1, 2, 3]);
}

#[test]
fn frame_buffer_swaps() {
    let mut fb = FrameBuffer::new();
    assert_eq!(fb.seq, 0);
    fb.back = vec![1, 2, 3];
    fb.swap();
    assert_eq!(fb.front, vec![1, 2, 3]);
    assert!(fb.back.is_empty());
    assert_eq!(fb.seq, 1);
    fb.swap();
    assert_eq!(fb.back, vec![1, 2, 3]);
    assert_eq!(fb.seq, 2);
}

#[test]
fn browser_windows_quit_on_last_close() {
    let mut st = DemoClientState::default();
    st.on_after_created();
    st.on_after_created();
    assert!(!st.do_close());
    assert!(!st.on_before_close());
    assert!(st.on_before_close());
    assert_eq!(st.browser_count, 0);
    assert!(st.on_before_close());
    assert_eq!(st.browser_count, 0);
}

#[test]
fn signaling_replies() {
    let r = offer_reply(OfferOutcome::Answered("v=0".into()));
    assert_eq!(r.status, 200);
    assert_eq!(r.body, SignalingBody::Sdp(SdpResponse { sdp: "v=0".into() }));
    let r = offer_reply(OfferOutcome::ChannelClosed);
    assert_eq!(r.status, 503);
    assert_eq!(r.body, SignalingBody::Error(ErrorResponse { error: "Signaling channel closed".into() }));
    let r = offer_reply(OfferOutcome::AnswerDropped);
    assert_eq!(r.status, 504);
    assert_eq!(r.body, SignalingBody::Error(ErrorResponse { error: "Sidecar dropped answer channel".into() }));
    let r = offer_reply(OfferOutcome::TimedOut);
    assert_eq!(r.status, 504);
    assert_eq!(r.body, SignalingBody::Error(ErrorResponse { error: "Timed out waiting for WebRTC answer from sidecar".into() }));
    let r = answer_reply();
    assert_eq!(r.status, 400);
    let mut buf = vec!["c1".to_string(), "c2".to_string()];
    let r = ice_reply(&mut buf);
    assert_eq!(r.status, 200);
    assert_eq!(r.body, SignalingBody::Ice(IceResponse { candidates: vec!["c1".into(), "c2".into()] }));
    assert!(buf.is_empty());
    let r = ice_reply(&mut buf);
    assert_eq!(r.body, SignalingBody::Ice(IceResponse { candidates: vec![] }));
}
