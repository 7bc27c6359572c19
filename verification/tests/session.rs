use demo_panel::proto::RendererFpsParams;
use demo_panel::protocol::{LogLevel, ToDesktop};
use demo_panel::cube::{CubeSensorData, SensorHistoryEntry};
use demo_panel::session::{next_session_action, tick_updates, Session, SessionAction, SessionEvent};

#[test]
fn session_ticks_send_updates() {
    assert!(matches!(next_session_action(SessionEvent::Tick), SessionAction::SendUpdates));
}

#[test]
fn session_passes_on_log_lines() {
    match next_session_action(SessionEvent::LogLine(Some("[renderer] ok".into()))) {
        SessionAction::SendLog(line) => assert_eq!(line, "[renderer] ok"),
        _ => panic!("expected a log notification"),
    }
    assert!(matches!(next_session_action(SessionEvent::LogLine(None)), SessionAction::Wait));
}

#[test]
fn session_passes_on_frame_rates_only() {
    let msg = ToDesktop::FpsReport { fps_bits: 59.5f64.to_bits(), frame_count: 42 };
    match next_session_action(SessionEvent::FromRenderer(Some(msg))) {
        SessionAction::SendFps(p) => {
            assert_eq!(p, RendererFpsParams { fps_bits: 59.5f64.to_bits(), frame_count: 42 })
        }
        _ => panic!("expected a frame rate notification"),
    }
    let other = ToDesktop::Log { level: LogLevel::Info, message: "x".into() };
    assert!(matches!(
        next_session_action(SessionEvent::FromRenderer(Some(other))),
        SessionAction::Wait
    ));
    assert!(matches!(next_session_action(SessionEvent::FromRenderer(None)), SessionAction::Wait));
}

#[test]
fn session_answers_text_and_stops_when_closed() {
    match next_session_action(SessionEvent::Text("{}".into())) {
        SessionAction::Answer(t) => assert_eq!(t, "{}"),
        _ => panic!("expected an answer"),
    }
    assert!(matches!(next_session_action(SessionEvent::Closed), SessionAction::Stop));
    assert!(matches!(next_session_action(SessionEvent::SendFailed), SessionAction::Stop));
    assert!(matches!(next_session_action(SessionEvent::OtherMessage), SessionAction::Wait));
}

#[test]
fn session_opens_with_snapshot_and_stays_stopped() {
    let (mut session, first) = Session::open();
    assert!(matches!(first, SessionAction::SendSnapshot));
    assert!(matches!(session.next(SessionEvent::Tick), SessionAction::SendUpdates));
    assert!(matches!(session.next(SessionEvent::SendFailed), SessionAction::Stop));
    assert!(matches!(session.next(SessionEvent::Tick), SessionAction::Stop));
    assert!(matches!(session.next(SessionEvent::Text("{}".into())), SessionAction::Stop));
}

#[test]
fn failed_snapshot_ends_the_session() {
    let (mut session, _) = Session::open();
    assert!(matches!(session.next(SessionEvent::SendFailed), SessionAction::Stop));
    assert!(matches!(session.next(SessionEvent::LogLine(Some("x".into()))), SessionAction::Stop));
}

fn reading(id: &str, t: f64, ts: i64) -> CubeSensorData {
    CubeSensorData {
        id: id.into(),
        label: String::new(),
        temperature_bits: t.to_bits(),
        humidity_bits: 55.0f64.to_bits(),
        timestamp: ts,
        history: vec![SensorHistoryEntry { timestamp: ts, temperature_bits: t.to_bits(), humidity_bits: 55.0f64.to_bits() }],
    }
}

#[test]
fn tick_sends_one_update_per_reading_in_order() {
    let readings = vec![
        Some(reading("cube_0", 21.0, 100)),
        None,
        Some(reading("cube_2", 23.5, 102)),
        Some(reading("cube_3", 24.0, 103)),
    ];
    let updates = tick_updates(&readings);
    let ids: Vec<&str> = updates.iter().map(|u| u.cube_id.as_str()).collect();
    assert_eq!(ids, vec!["cube_0", "cube_2", "cube_3"]);
    assert_eq!(f64::from_bits(updates[1].temperature_bits), 23.5);
    assert_eq!(updates[2].timestamp, 103);
    assert!(tick_updates(&vec![None, None]).is_empty());
}
