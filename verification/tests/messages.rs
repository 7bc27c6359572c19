use demo_panel::ipc::{apply_resolution, CaptureResolution, IpcChannel, ResolutionDirty};
use demo_panel::protocol::{
    classify_sidecar_line, ipc_line, route_from_renderer, trim_line, IpcEnvelope, IpcPayload,
    LogLevel, MoveDirection, SidecarLine, ToDesktop, ToRenderer,
};

#[test]
fn envelopes_carry_ids() {
    let e = IpcEnvelope::to_renderer(ToRenderer::Ping { timestamp: 5 });
    assert_eq!(e.id, 0);
    let e = IpcEnvelope::to_renderer_with_id(9, ToRenderer::SetResolution { width: 1, height: 2 });
    assert_eq!(e.id, 9);
    let e = IpcEnvelope::to_desktop_reply(11, ToDesktop::Pong { timestamp: 1 });
    assert_eq!(e.id, 11);
    assert_eq!(e.payload, IpcPayload::ToDesktop(ToDesktop::Pong { timestamp: 1 }));
    let e = IpcEnvelope::to_desktop(ToDesktop::Log { level: LogLevel::Warn, message: "x".into() });
    assert_eq!(e.id, 0);
}

#[test]
fn routing_keeps_only_host_messages() {
    let up = IpcEnvelope::to_desktop(ToDesktop::FrameDimensions { width: 3, height: 4 });
    assert_eq!(route_from_renderer(up), Some(ToDesktop::FrameDimensions { width: 3, height: 4 }));
    let down = IpcEnvelope::to_renderer(ToRenderer::Ping { timestamp: 0 });
    assert_eq!(route_from_renderer(down), None);
}

#[test]
fn lines_are_trimmed_and_classified() {
    assert_eq!(trim_line("  \t abc \r\n"), "abc");
    assert_eq!(trim_line("\u{3000}x y\u{a0}"), "x y");
    assert_eq!(trim_line("   "), "");
    assert_eq!(
        classify_sidecar_line("  __IPC__{\"id\":1}  "),
        SidecarLine::Ipc("{\"id\":1}".to_string())
    );
    assert_eq!(
        classify_sidecar_line("[renderer] hello "),
        SidecarLine::Log("[renderer] hello".to_string())
    );
    assert_eq!(classify_sidecar_line("__IPC_"), SidecarLine::Log("__IPC_".to_string()));
    assert_eq!(classify_sidecar_line("__IPC__"), SidecarLine::Ipc(String::new()));
}

#[test]
fn ipc_lines_round_trip() {
    let json = "{\"id\":0,\"payload\":{}}";
    let line = ipc_line(json);
    assert_eq!(line, "__IPC__{\"id\":0,\"payload\":{}}");
    assert_eq!(classify_sidecar_line(&line), SidecarLine::Ipc(json.to_string()));
}

#[test]
fn channel_queues_commands_in_order() {
    let mut ch = IpcChannel::new();
    assert_eq!(ch.receive(IpcEnvelope::to_renderer(ToRenderer::MoveCamera { direction: MoveDirection::Left })), None);
    assert_eq!(
        ch.receive(IpcEnvelope::to_renderer_with_id(4, ToRenderer::PickRay { screen_x_bits: 1.5f32.to_bits(), screen_y_bits: 2.0f32.to_bits() })),
        None
    );
    ch.receive(IpcEnvelope::to_renderer(ToRenderer::MoveCamera { direction: MoveDirection::Forward }));
    let pong = ch.receive(IpcEnvelope::to_renderer(ToRenderer::Ping { timestamp: 77 }));
    assert_eq!(pong, Some(IpcEnvelope::to_desktop(ToDesktop::Pong { timestamp: 77 })));
    assert_eq!(ch.receive(IpcEnvelope::to_desktop(ToDesktop::Pong { timestamp: 1 })), None);
    assert_eq!(ch.drain_moves(), vec![MoveDirection::Left, MoveDirection::Forward]);
    assert_eq!(ch.drain_moves(), vec![]);
    let picks = ch.drain_picks();
    assert_eq!(picks, vec![(4, 1.5f32.to_bits(), 2.0f32.to_bits())]);
    assert_eq!(f32::from_bits(picks[0].1), 1.5);
    assert_eq!(ch.drain_picks(), vec![]);
}

#[test]
fn latest_resolution_wins() {
    let mut ch = IpcChannel::new();
    ch.receive(IpcEnvelope::to_renderer_with_id(1, ToRenderer::SetResolution { width: 800, height: 600 }));
    ch.receive(IpcEnvelope::to_renderer_with_id(2, ToRenderer::SetResolution { width: 1920, height: 1080 }));
    let mut res = CaptureResolution::new(1280, 800);
    let mut dirty = ResolutionDirty::default();
    assert_eq!(apply_resolution(&mut ch, &mut res, &mut dirty), Some((2, 1920, 1080)));
    assert_eq!(res, CaptureResolution { width: 1920, height: 1080 });
    assert_eq!(dirty, ResolutionDirty(true));
    let mut dirty2 = ResolutionDirty(false);
    assert_eq!(apply_resolution(&mut ch, &mut res, &mut dirty2), None);
    assert_eq!(dirty2, ResolutionDirty(false));
    assert_eq!(ch.drain_resolution(), None);
    assert!(dirty.take());
    assert_eq!(dirty, ResolutionDirty(false));
    assert!(!dirty.take());
}

#[test]
fn ids_count_up_from_one() {
    let mut ch = IpcChannel::new();
    assert_eq!(ch.alloc_id(), 1);
    assert_eq!(ch.alloc_id(), 2);
    assert_eq!(ch.alloc_id(), 3);
}

#[test]
fn ids_count_up_without_gaps() {
    let mut ch = IpcChannel::new();
    for expected in 1..=500u64 {
        assert_eq!(ch.alloc_id(), expected);
    }
    assert_eq!(ch.drain_moves(), vec![]);
    assert_eq!(ch.drain_picks(), vec![]);
    assert_eq!(ch.drain_resolution(), None);
}
