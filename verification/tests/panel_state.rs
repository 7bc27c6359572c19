use demo_panel::clock::{next_clock_step, ClockStep};
use demo_panel::cube::{update_params, CubeSensorData, SensorHistoryEntry, SensorUpdateParams};
use demo_panel::ipc::{requested_or_default, resolution_override};
use demo_panel::panel::{
    display_label, toggle_selection, trend_history_text, PanelEvent, PanelNotice, SensorStore,
};
use demo_panel::labels::{
    border_style, chart_title, connection_text, resolution_request, updated_text, waiting_text,
};
use demo_panel::panel::RequestIds;
use demo_panel::proto::RendererFpsParams;

fn cube(id: &str, label: &str, t: f64) -> CubeSensorData {
    CubeSensorData {
        id: id.into(),
        label: label.into(),
        temperature_bits: t.to_bits(),
        humidity_bits: 50.0f64.to_bits(),
        timestamp: 10,
        history: vec![SensorHistoryEntry { timestamp: 10, temperature_bits: t.to_bits(), humidity_bits: 50.0f64.to_bits() }],
    }
}

fn update(id: &str, t: f64, ts: i64) -> SensorUpdateParams {
    SensorUpdateParams { cube_id: id.into(), temperature_bits: t.to_bits(), humidity_bits: 40.0f64.to_bits(), timestamp: ts }
}

#[test]
fn snapshot_then_updates() {
    let mut store = SensorStore::new();
    assert!(store.get("cube_0").is_none());
    store.apply_snapshot(vec![cube("cube_0", "节点A", 25.0), cube("cube_1", "节点B", 30.0)]);
    assert_eq!(store.get("cube_1").unwrap().label, "节点B");
    store.apply_update(update("cube_0", 26.5, 11));
    let c = store.get("cube_0").unwrap();
    assert_eq!(f64::from_bits(c.temperature_bits), 26.5);
    assert_eq!(c.timestamp, 11);
    assert_eq!(c.label, "节点A");
    assert_eq!(c.history.len(), 2);
    assert_eq!(c.history[1].timestamp, 11);
    // A snapshot replaces what was stored.
    store.apply_snapshot(vec![cube("cube_0", "new", 1.0)]);
    assert_eq!(store.get("cube_0").unwrap().history.len(), 1);
    assert_eq!(store.get("cube_0").unwrap().label, "new");
}

#[test]
fn update_for_unknown_cube_starts_empty() {
    let mut store = SensorStore::new();
    store.apply_update(update("cube_9", 20.0, 5));
    let c = store.get("cube_9").unwrap();
    assert_eq!(c.id, "");
    assert_eq!(c.label, "");
    assert_eq!(c.history.len(), 1);
}

#[test]
fn panel_history_is_bounded() {
    let mut store = SensorStore::new();
    for ts in 0..70 {
        store.apply_update(update("cube_2", 20.0, ts));
    }
    let c = store.get("cube_2").unwrap();
    assert_eq!(c.history.len(), 60);
    assert_eq!(c.history[0].timestamp, 10);
    assert_eq!(c.history[59].timestamp, 69);
}

#[test]
fn update_params_copy_the_reading() {
    let c = cube("cube_3", "x", 21.0);
    let u = update_params(&c);
    assert_eq!(u, SensorUpdateParams { cube_id: "cube_3".into(), temperature_bits: 21.0f64.to_bits(), humidity_bits: 50.0f64.to_bits(), timestamp: 10 });
}

#[test]
fn selection_toggles() {
    assert_eq!(toggle_selection(None, "cube_1".into()), Some("cube_1".to_string()));
    assert_eq!(toggle_selection(Some("cube_1".into()), "cube_1".into()), None);
    assert_eq!(toggle_selection(Some("cube_1".into()), "cube_2".into()), Some("cube_2".to_string()));
}

#[test]
fn labels() {
    assert_eq!(display_label("cube_3", ""), "节点3");
    assert_eq!(display_label("cube_3", "Lab"), "Lab");
    assert_eq!(display_label("cube_cube_x", ""), "节点节点x");
    assert_eq!(display_label("cub", ""), "cub");
    assert_eq!(display_label("", ""), "");
}

#[test]
fn clock_steps() {
    assert_eq!(next_clock_step(true, 7), ClockStep::Show { after_ms: 1000 });
    assert_eq!(next_clock_step(false, 0), ClockStep::Retry { after_ms: 500, retries: 1 });
    assert_eq!(next_clock_step(false, 19), ClockStep::Retry { after_ms: 500, retries: 20 });
    assert_eq!(next_clock_step(false, 20), ClockStep::Stop);
}

#[test]
fn cef_resolution_defaults() {
    assert_eq!(requested_or_default(0, 0), (1280, 800));
    assert_eq!(requested_or_default(0, 600), (1280, 800));
    assert_eq!(requested_or_default(1024, 768), (1024, 768));
}

#[test]
fn desktop_resolution_override() {
    assert_eq!(resolution_override(0, 0), None);
    assert_eq!(resolution_override(0, 5), Some((0, 5)));
    assert_eq!(resolution_override(1920, 1080), Some((1920, 1080)));
}

#[test]
fn trend_history_lines() {
    assert_eq!(trend_history_text(0), "数据采样中，等待更多数据点...");
    assert_eq!(trend_history_text(1), "数据采样中，等待更多数据点...");
    assert_eq!(trend_history_text(2), "已采集 2 个数据点");
    assert_eq!(trend_history_text(60), "已采集 60 个数据点");
    assert_eq!(trend_history_text(1007), "已采集 1007 个数据点");
}

#[test]
fn notices_update_the_store_or_come_back() {
    let mut store = SensorStore::new();
    let e = store.on_notice(PanelNotice::Snapshot(vec![cube("cube_0", "节点A", 25.0)]));
    assert!(matches!(e, PanelEvent::Nothing));
    assert_eq!(store.get("cube_0").unwrap().label, "节点A");
    let e = store.on_notice(PanelNotice::Update(update("cube_0", 27.0, 12)));
    assert!(matches!(e, PanelEvent::Nothing));
    let c = store.get("cube_0").unwrap();
    assert_eq!(f64::from_bits(c.temperature_bits), 27.0);
    assert_eq!(c.history.len(), 2);
    match store.on_notice(PanelNotice::Log("hello".into())) {
        PanelEvent::Log(line) => assert_eq!(line, "hello"),
        _ => panic!("expected a log line"),
    }
    let fps = RendererFpsParams { fps_bits: 60.0f64.to_bits(), frame_count: 600 };
    match store.on_notice(PanelNotice::Fps(fps)) {
        PanelEvent::Fps(p) => assert_eq!(p, fps),
        _ => panic!("expected a frame rate"),
    }
    assert!(matches!(store.on_notice(PanelNotice::Ignored), PanelEvent::Nothing));
    assert_eq!(store.get("cube_0").unwrap().history.len(), 2);
    assert!(store.get("cube_1").is_none());
}

#[test]
fn card_and_chart_words() {
    assert_eq!(chart_title("cube_3", ""), "节点3 — 温湿度趋势");
    assert_eq!(chart_title("cube_3", "Lab"), "Lab — 温湿度趋势");
    assert_eq!(updated_text(0), "更新: --");
    assert_eq!(updated_text(-5), "更新: --");
    assert_eq!(updated_text(3_723_000), "更新: 01:02:03");
    assert_eq!(waiting_text("cube_4"), "cube_4 等待数据...");
    assert_eq!(connection_text(true), "● 已连接");
    assert_eq!(connection_text(false), "○ 未连接");
    assert_eq!(
        border_style(true),
        "border-color:rgba(255,255,255,0.6);box-shadow:0 0 12px rgba(255,255,255,0.2);"
    );
    assert_eq!(border_style(false), "border-color:rgba(255,255,255,0.12);box-shadow:none;");
}

#[test]
fn resolution_buttons() {
    assert_eq!(resolution_request(None), (0, 0));
    assert_eq!(resolution_request(Some((1920, 1080))), (1920, 1080));
}

#[test]
fn chart_follows_selection() {
    let mut store = SensorStore::new();
    store.apply_snapshot(vec![cube("cube_1", "B", 20.0)]);
    assert!(store.chart_for(&None).is_none());
    assert_eq!(store.chart_for(&Some("cube_1".to_string())).unwrap().label, "B");
    assert!(store.chart_for(&Some("cube_2".to_string())).is_none());
}

#[test]
fn panel_requests_are_numbered_from_one() {
    let mut ids = RequestIds::new();
    let got: Vec<u64> = (0..5).map(|_| ids.next_id()).collect();
    assert_eq!(got, vec![1, 2, 3, 4, 5]);
    assert_eq!(ids.last, 5);
}
