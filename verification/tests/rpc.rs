use demo_panel::input::direction_for_key;
use demo_panel::proto::{
    fps_report_params, handle_rpc_request, rpc_method, MoveDirection, MoveParams,
    NotificationMethod, PickParams, RendererFpsParams, RpcCall, RpcMethod, RpcStatus,
};
use demo_panel::protocol::{self, LogLevel, ToDesktop, ToRenderer};

#[test]
fn direction_names() {
    assert_eq!(MoveDirection::from_direction_str("forward"), Some(MoveDirection::Forward));
    assert_eq!(MoveDirection::from_direction_str("backward"), Some(MoveDirection::Backward));
    assert_eq!(MoveDirection::from_direction_str("left"), Some(MoveDirection::Left));
    assert_eq!(MoveDirection::from_direction_str("right"), Some(MoveDirection::Right));
    assert_eq!(MoveDirection::from_direction_str("Forward"), None);
    assert_eq!(MoveDirection::from_direction_str(""), None);
    assert_eq!(MoveDirection::Left.to_renderer(), protocol::MoveDirection::Left);
}

#[test]
fn method_names() {
    assert_eq!(rpc_method("input.pick"), RpcMethod::Pick);
    assert_eq!(rpc_method("input.move"), RpcMethod::Move);
    assert_eq!(rpc_method("display.renderResolution"), RpcMethod::RenderResolution);
    assert_eq!(rpc_method("input.picks"), RpcMethod::Unknown);
}

#[test]
fn pick_is_passed_on() {
    let p = PickParams { screen_x_bits: 10.0f32.to_bits(), screen_y_bits: 20.0f32.to_bits() };
    let o = handle_rpc_request(RpcCall::Pick(Ok(p)), 3);
    assert_eq!(o.response.jsonrpc, "2.0");
    assert_eq!(o.response.id, 3);
    assert_eq!(o.response.result, Some(RpcStatus::Pending));
    assert!(o.response.error.is_none());
    assert_eq!(o.command, Some(ToRenderer::PickRay { screen_x_bits: p.screen_x_bits, screen_y_bits: p.screen_y_bits }));
    assert_eq!(o.resolution, None);
}

#[test]
fn bad_params_get_invalid_params() {
    let o = handle_rpc_request(RpcCall::Pick(Err("missing field `screen_x`".into())), 8);
    let e = o.response.error.unwrap();
    assert_eq!(e.code, -32602);
    assert_eq!(e.message, "Invalid params: missing field `screen_x`");
    assert_eq!(o.response.result, None);
    assert_eq!(o.command, None);
    let o = handle_rpc_request(RpcCall::Move(Err("oops".into())), 9);
    assert_eq!(o.response.error.unwrap().message, "Invalid params: oops");
}

#[test]
fn move_is_checked_then_passed_on() {
    let o = handle_rpc_request(RpcCall::Move(Ok(MoveParams { direction: "right".into() })), 1);
    assert_eq!(o.response.result, Some(RpcStatus::Done));
    assert_eq!(o.command, Some(ToRenderer::MoveCamera { direction: protocol::MoveDirection::Right }));
    let o = handle_rpc_request(RpcCall::Move(Ok(MoveParams { direction: "up".into() })), 2);
    let e = o.response.error.unwrap();
    assert_eq!(e.code, -32602);
    assert_eq!(e.message, "Invalid direction: up");
    assert_eq!(o.command, None);
}

#[test]
fn resolution_requests_are_bounded() {
    let rr = |w: Option<u64>, h: Option<u64>| {
        handle_rpc_request(RpcCall::RenderResolution { width: w, height: h }, 5)
    };
    assert_eq!(rr(Some(1920), Some(1080)).resolution, Some((1920, 1080)));
    assert_eq!(rr(Some(3840), Some(2160)).resolution, Some((3840, 2160)));
    assert_eq!(rr(Some(3841), Some(2160)).resolution, None);
    assert_eq!(rr(Some(0), Some(0)).resolution, Some((0, 0)));
    assert_eq!(rr(None, None).resolution, Some((0, 0)));
    assert_eq!(rr(Some(100), None).resolution, None);
    // Values are cut to 32 bits first: 2^32 + 5 reads as 5.
    assert_eq!(rr(Some((1u64 << 32) + 5), Some(7)).resolution, Some((5, 7)));
    let o = rr(Some(5000), Some(5000));
    assert_eq!(o.response.result, Some(RpcStatus::Done));
    assert!(o.response.error.is_none());
}

#[test]
fn unknown_method_is_not_found() {
    let o = handle_rpc_request(RpcCall::Unknown, 42);
    let e = o.response.error.unwrap();
    assert_eq!(e.code, -32601);
    assert_eq!(e.message, "Method not found");
    assert_eq!(o.response.id, 42);
}

#[test]
fn only_fps_reports_reach_the_panel() {
    let fps = ToDesktop::FpsReport { fps_bits: 59.5f64.to_bits(), frame_count: 120 };
    assert_eq!(fps_report_params(&fps), Some(RendererFpsParams { fps_bits: 59.5f64.to_bits(), frame_count: 120 }));
    let log = ToDesktop::Log { level: LogLevel::Info, message: "hi".into() };
    assert_eq!(fps_report_params(&log), None);
}

#[test]
fn notification_names_round_trip() {
    for m in [
        NotificationMethod::SensorSnapshot,
        NotificationMethod::SensorUpdate,
        NotificationMethod::RendererLog,
        NotificationMethod::RendererFps,
    ] {
        assert_eq!(NotificationMethod::from_name(m.name()), Some(m));
    }
    assert_eq!(NotificationMethod::SensorUpdate.name(), "sensor.update");
    assert_eq!(NotificationMethod::from_name("sensor"), None);
}

#[test]
fn keys_map_to_accepted_directions() {
    for (key, dir) in [("w", "forward"), ("W", "forward"), ("ArrowUp", "forward"), ("s", "backward"), ("ArrowDown", "backward"), ("A", "left"), ("ArrowLeft", "left"), ("d", "right"), ("ArrowRight", "right")] {
        let d = direction_for_key(key).unwrap();
        assert_eq!(d, dir);
        assert!(MoveDirection::from_direction_str(&d).is_some());
    }
    assert_eq!(direction_for_key("q"), None);
    assert_eq!(direction_for_key("Enter"), None);
}
