//! The JSON-RPC interface between the panel and the server: the parameter
//! types it carries, and what the server does with each request.
//!
//! Parsing JSON into these values, and printing responses as JSON, happen
//! outside the library; floating-point parameters arrive as their bits.

use vstd::prelude::*;
use crate::protocol;
use crate::protocol::{ToDesktop, ToRenderer};
use crate::text::str_equals;

verus! {

/// A camera movement named in a request.
#[derive(Clone, Copy, Debug, PartialEq, Eq, Structural)]
pub enum MoveDirection {
    Forward,
    Backward,
    Left,
    Right,
}

/// The direction a request names, if the name is one of the four known.
pub open spec fn direction_named(s: Seq<char>) -> Option<MoveDirection> {
    if s == "forward"@ {
        Some(MoveDirection::Forward)
    } else if s == "backward"@ {
        Some(MoveDirection::Backward)
    } else if s == "left"@ {
        Some(MoveDirection::Left)
    } else if s == "right"@ {
        Some(MoveDirection::Right)
    } else {
        None
    }
}

impl MoveDirection {
    /// The direction named `s`: "forward", "backward", "left" or "right".
    pub fn from_direction_str(s: &str) -> (r: Option<MoveDirection>)
        ensures
            r == direction_named(s@),
    {
        if str_equals(s, "forward") {
            Some(MoveDirection::Forward)
        } else if str_equals(s, "backward") {
            Some(MoveDirection::Backward)
        } else if str_equals(s, "left") {
            Some(MoveDirection::Left)
        } else if str_equals(s, "right") {
            Some(MoveDirection::Right)
        } else {
            None
        }
    }

    /// The renderer's form of this direction.
    pub fn to_renderer(self) -> (r: protocol::MoveDirection)
        ensures
            r == renderer_direction(self),
    {
        match self {
            MoveDirection::Forward => protocol::MoveDirection::Forward,
            MoveDirection::Backward => protocol::MoveDirection::Backward,
            MoveDirection::Left => protocol::MoveDirection::Left,
            MoveDirection::Right => protocol::MoveDirection::Right,
        }
    }
}

/// The renderer's form of a direction.
pub open spec fn renderer_direction(d: MoveDirection) -> protocol::MoveDirection {
    match d {
        MoveDirection::Forward => protocol::MoveDirection::Forward,
        MoveDirection::Backward => protocol::MoveDirection::Backward,
        MoveDirection::Left => protocol::MoveDirection::Left,
        MoveDirection::Right => protocol::MoveDirection::Right,
    }
}

/// Parameters of `input.pick`: a screen point, as `f32` bits.
#[derive(Clone, Copy, Debug, PartialEq, Eq, Structural)]
pub struct PickParams {
    pub screen_x_bits: u32,
    pub screen_y_bits: u32,
}

/// Parameters of `input.move`.
#[derive(Clone, Debug, PartialEq, Eq)]
pub struct MoveParams {
    pub direction: String,
}

/// Parameters of `display.renderResolution`.
#[derive(Clone, Copy, Debug, PartialEq, Eq, Structural)]
pub struct RenderResolutionParams {
    pub width: u32,
    pub height: u32,
}

/// Parameters of `display.ready`; it has none.
#[derive(Clone, Copy, Debug, PartialEq, Eq, Structural)]
pub struct DisplayReadyParams {}

/// Result of `display.ready`.
#[derive(Clone, Copy, Debug, PartialEq, Eq, Structural)]
pub struct DisplayReadyResult {
    pub posted: bool,
}

/// An error object of a JSON-RPC response.
#[derive(Clone, Debug, PartialEq, Eq)]
pub struct JsonRpcError {
    pub code: i64,
    pub message: String,
}

/// The `status` a successful response reports.
#[derive(Clone, Copy, Debug, PartialEq, Eq, Structural)]
pub enum RpcStatus {
    /// The command was passed on; its answer comes later. Reported as
    /// status "pending".
    Pending,
    /// The command was carried out; reported as status "ok".
    Done,
}

/// A JSON-RPC response.
#[derive(Clone, Debug, PartialEq, Eq)]
pub struct JsonRpcResponse {
    pub jsonrpc: String,
    pub result: Option<RpcStatus>,
    pub error: Option<JsonRpcError>,
    pub id: u64,
}

/// The methods the server knows.
#[derive(Clone, Copy, Debug, PartialEq, Eq, Structural)]
pub enum RpcMethod {
    Pick,
    Move,
    RenderResolution,
    Unknown,
}

/// The method named `s`.
pub open spec fn method_named(s: Seq<char>) -> RpcMethod {
    if s == "input.pick"@ {
        RpcMethod::Pick
    } else if s == "input.move"@ {
        RpcMethod::Move
    } else if s == "display.renderResolution"@ {
        RpcMethod::RenderResolution
    } else {
        RpcMethod::Unknown
    }
}

/// The method a request names.
pub fn rpc_method(method: &str) -> (r: RpcMethod)
    ensures
        r == method_named(method@),
{
    if str_equals(method, "input.pick") {
        RpcMethod::Pick
    } else if str_equals(method, "input.move") {
        RpcMethod::Move
    } else if str_equals(method, "display.renderResolution") {
        RpcMethod::RenderResolution
    } else {
        RpcMethod::Unknown
    }
}

/// A request with its parameters parsed as its method wants them; a
/// parse failure carries the parser's message.
#[derive(Debug, PartialEq, Eq)]
pub enum RpcCall {
    Pick(Result<PickParams, String>),
    Move(Result<MoveParams, String>),
    /// The `width` and `height` parameters, where they are unsigned integers.
    RenderResolution { width: Option<u64>, height: Option<u64> },
    Unknown,
}

/// What the server does with one request: the response to send, a command
/// for the renderer, and a resolution for the host.
#[derive(Clone, Debug, PartialEq, Eq)]
pub struct RpcOutcome {
    pub response: JsonRpcResponse,
    pub command: Option<ToRenderer>,
    pub resolution: Option<(u32, u32)>,
}

/// Code of an error for parameters that do not fit the method.
pub const INVALID_PARAMS: i64 = -32602;
/// Code of an error for a method the server does not know.
pub const METHOD_NOT_FOUND: i64 = -32601;

/// The largest resolution the host accepts.
pub const MAX_RENDER_WIDTH: u32 = 3840;
pub const MAX_RENDER_HEIGHT: u32 = 2160;

/// The resolution passed on for a requested `w` x `h`: (0, 0) resets to the
/// native size, a size within the limits is kept, anything else is dropped.
pub open spec fn accepted_resolution(w: u32, h: u32) -> Option<(u32, u32)> {
    if w == 0 && h == 0 {
        Some((0, 0))
    } else if 0 < w <= MAX_RENDER_WIDTH && 0 < h <= MAX_RENDER_HEIGHT {
        Some((w, h))
    } else {
        None
    }
}

/// The outcome the server owes for `call` with request id `id`.
pub open spec fn rpc_outcome(call: RpcCall, id: u64) -> (Option<RpcStatus>, Option<(i64, Seq<char>)>, Option<ToRenderer>, Option<(u32, u32)>) {
    match call {
        RpcCall::Pick(Err(e)) => (None, Some((INVALID_PARAMS, "Invalid params: "@ + e@)), None, None),
        RpcCall::Pick(Ok(p)) => (
            Some(RpcStatus::Pending),
            None,
            Some(ToRenderer::PickRay { screen_x_bits: p.screen_x_bits, screen_y_bits: p.screen_y_bits }),
            None,
        ),
        RpcCall::Move(Err(e)) => (None, Some((INVALID_PARAMS, "Invalid params: "@ + e@)), None, None),
        RpcCall::Move(Ok(p)) => match direction_named(p.direction@) {
            Some(d) => (
                Some(RpcStatus::Done),
                None,
                Some(ToRenderer::MoveCamera { direction: renderer_direction(d) }),
                None,
            ),
            None => (None, Some((INVALID_PARAMS, "Invalid direction: "@ + p.direction@)), None, None),
        },
        RpcCall::RenderResolution { width, height } => {
            let w = match width { Some(x) => x as u32, None => 0u32 };
            let h = match height { Some(x) => x as u32, None => 0u32 };
            (Some(RpcStatus::Done), None, None, accepted_resolution(w, h))
        },
        RpcCall::Unknown => (None, Some((METHOD_NOT_FOUND, "Method not found"@)), None, None),
    }
}

/// Whether `o` is the outcome `expected` for request `id`, answered in
/// JSON-RPC 2.0.
pub open spec fn outcome_matches(o: RpcOutcome, id: u64, expected: (Option<RpcStatus>, Option<(i64, Seq<char>)>, Option<ToRenderer>, Option<(u32, u32)>)) -> bool {
    &&& o.response.jsonrpc@ == "2.0"@
    &&& o.response.id == id
    &&& o.response.result == expected.0
    &&& match o.response.error {
        Some(e) => expected.1 matches Some(cm) && e.code == cm.0 && e.message@ == cm.1,
        None => expected.1 is None,
    }
    &&& o.command == expected.2
    &&& o.resolution == expected.3
}

fn response(id: u64, result: Option<RpcStatus>, error: Option<JsonRpcError>) -> (r: JsonRpcResponse)
    ensures
        r.jsonrpc@ == "2.0"@,
        r.id == id,
        r.result == result,
        r.error == error,
{
    JsonRpcResponse { jsonrpc: String::from_str("2.0"), result, error, id }
}

fn error_with(code: i64, prefix: &str, detail: &str) -> (r: JsonRpcError)
    ensures
        r.code == code,
        r.message@ == prefix@ + detail@,
{
    let mut message = String::from_str(prefix);
    message.append(detail);
    JsonRpcError { code, message }
}

/// An error outcome: no command, no resolution.
fn failure(id: u64, code: i64, prefix: &str, detail: &str) -> (r: RpcOutcome)
    ensures
        r.response.jsonrpc@ == "2.0"@,
        r.response.id == id,
        r.response.result is None,
        r.response.error matches Some(e) && e.code == code && e.message@ == prefix@ + detail@,
        r.command is None,
        r.resolution is None,
{
    RpcOutcome {
        response: response(id, None, Some(error_with(code, prefix, detail))),
        command: None,
        resolution: None,
    }
}

/// Handles one request: a pick is passed on to the renderer, a movement is
/// passed on if its direction is known, a resolution is passed on to the host
/// if it is acceptable; bad parameters and unknown methods get an error.
pub fn handle_rpc_request(call: RpcCall, id: u64) -> (r: RpcOutcome)
    ensures
        outcome_matches(r, id, rpc_outcome(call, id)),
{
    match call {
        RpcCall::Pick(parsed) => match parsed {
            Err(e) => failure(id, INVALID_PARAMS, "Invalid params: ", e.as_str()),
            Ok(p) => RpcOutcome {
                response: response(id, Some(RpcStatus::Pending), None),
                command: Some(
                    ToRenderer::PickRay {
                        screen_x_bits: p.screen_x_bits,
                        screen_y_bits: p.screen_y_bits,
                    },
                ),
                resolution: None,
            },
        },
        RpcCall::Move(parsed) => match parsed {
            Err(e) => failure(id, INVALID_PARAMS, "Invalid params: ", e.as_str()),
            Ok(p) => match MoveDirection::from_direction_str(p.direction.as_str()) {
                Some(d) => RpcOutcome {
                    response: response(id, Some(RpcStatus::Done), None),
                    command: Some(ToRenderer::MoveCamera { direction: d.to_renderer() }),
                    resolution: None,
                },
                None => failure(id, INVALID_PARAMS, "Invalid direction: ", p.direction.as_str()),
            },
        },
        RpcCall::RenderResolution { width, height } => {
            let w: u32 = match width {
                Some(x) => #[verifier::truncate] (x as u32),
                None => 0,
            };
            let h: u32 = match height {
                Some(x) => #[verifier::truncate] (x as u32),
                None => 0,
            };
            let resolution = if w == 0 && h == 0 {
                Some((0u32, 0u32))
            } else if w > 0 && h > 0 && w <= MAX_RENDER_WIDTH && h <= MAX_RENDER_HEIGHT {
                Some((w, h))
            } else {
                None
            };
            RpcOutcome { response: response(id, Some(RpcStatus::Done), None), command: None, resolution }
        },
        RpcCall::Unknown => {
            proof {
                reveal_strlit("");
                assert("Method not found"@ + ""@ =~= "Method not found"@);
            }
            failure(id, METHOD_NOT_FOUND, "Method not found", "")
        },
    }
}

/// Parameters of a `renderer.fps` notification; `fps_bits` are the bits of
/// an `f64`.
#[derive(Clone, Copy, Debug, PartialEq, Eq, Structural)]
pub struct RendererFpsParams {
    pub fps_bits: u64,
    pub frame_count: u64,
}

/// The `renderer.fps` parameters a message from the renderer gives the
/// panel: those of a frame rate report; other messages give none.
pub fn fps_report_params(msg: &ToDesktop) -> (r: Option<RendererFpsParams>)
    ensures
        r == (match *msg {
            ToDesktop::FpsReport { fps_bits, frame_count } => Some(
                RendererFpsParams { fps_bits, frame_count },
            ),
            _ => None,
        }),
{
    match msg {
        ToDesktop::FpsReport { fps_bits, frame_count } => Some(
            RendererFpsParams { fps_bits: *fps_bits, frame_count: *frame_count },
        ),
        _ => None,
    }
}

/// The notifications the server pushes to the panel.
#[derive(Clone, Copy, Debug, PartialEq, Eq, Structural)]
pub enum NotificationMethod {
    SensorSnapshot,
    SensorUpdate,
    RendererLog,
    RendererFps,
}

/// The method name a notification is sent under.
pub open spec fn notification_name(m: NotificationMethod) -> Seq<char> {
    match m {
        NotificationMethod::SensorSnapshot => "sensor.snapshot"@,
        NotificationMethod::SensorUpdate => "sensor.update"@,
        NotificationMethod::RendererLog => "renderer.log"@,
        NotificationMethod::RendererFps => "renderer.fps"@,
    }
}

/// The notification a method name denotes, if any.
pub open spec fn notification_named(s: Seq<char>) -> Option<NotificationMethod> {
    if s == "sensor.snapshot"@ {
        Some(NotificationMethod::SensorSnapshot)
    } else if s == "sensor.update"@ {
        Some(NotificationMethod::SensorUpdate)
    } else if s == "renderer.log"@ {
        Some(NotificationMethod::RendererLog)
    } else if s == "renderer.fps"@ {
        Some(NotificationMethod::RendererFps)
    } else {
        None
    }
}

impl NotificationMethod {
    /// The method name this notification is sent under.
    pub fn name(self) -> (r: &'static str)
        ensures
            r@ == notification_name(self),
    {
        match self {
            NotificationMethod::SensorSnapshot => "sensor.snapshot",
            NotificationMethod::SensorUpdate => "sensor.update",
            NotificationMethod::RendererLog => "renderer.log",
            NotificationMethod::RendererFps => "renderer.fps",
        }
    }

    /// The notification the panel reads a method name as.
    pub fn from_name(s: &str) -> (r: Option<NotificationMethod>)
        ensures
            r == notification_named(s@),
    {
        if str_equals(s, "sensor.snapshot") {
            Some(NotificationMethod::SensorSnapshot)
        } else if str_equals(s, "sensor.update") {
            Some(NotificationMethod::SensorUpdate)
        } else if str_equals(s, "renderer.log") {
            Some(NotificationMethod::RendererLog)
        } else if str_equals(s, "renderer.fps") {
            Some(NotificationMethod::RendererFps)
        } else {
            None
        }
    }
}

/// The panel reads every notification the server sends as the one it is.
pub proof fn law_notifications_roundtrip(m: NotificationMethod)
    ensures
        notification_named(notification_name(m)) == Some(m),
{
    reveal_strlit("sensor.snapshot");
    reveal_strlit("sensor.update");
    reveal_strlit("renderer.log");
    reveal_strlit("renderer.fps");
    assert("sensor.update"@.len() != "sensor.snapshot"@.len());
    assert("renderer.log"@.len() != "sensor.snapshot"@.len());
    assert("renderer.log"@.len() != "sensor.update"@.len());
    assert("renderer.fps"@.len() != "sensor.snapshot"@.len());
    assert("renderer.fps"@.len() != "sensor.update"@.len());
    assert("renderer.fps"@[9] != "renderer.log"@[9]);
}

/// Every response answers its own request in JSON-RPC 2.0 and carries
/// either a result or an error, never both; only a successful pick or
/// movement sends the renderer a command, and only an accepted size reaches
/// the host.
pub proof fn law_response_shape(call: RpcCall, id: u64)
    ensures
        ({
            let (result, error, command, resolution) = rpc_outcome(call, id);
            &&& result is Some <==> error is None
            &&& command is Some ==> result is Some
            &&& resolution matches Some((w, h)) ==> (w == 0 && h == 0) || (0 < w <= MAX_RENDER_WIDTH
                && 0 < h <= MAX_RENDER_HEIGHT)
        }),
{
}

/// A move request moves the camera the way it names: "forward", "backward",
/// "left" and "right" send the renderer a camera movement in the direction
/// of the same name and are answered as done; any other name sends nothing.
pub proof fn law_move_goes_the_named_way(p: MoveParams, id: u64)
    ensures
        p.direction@ == "forward"@ ==> rpc_outcome(RpcCall::Move(Ok(p)), id).2 == Some(
            ToRenderer::MoveCamera { direction: protocol::MoveDirection::Forward },
        ),
        p.direction@ == "backward"@ ==> rpc_outcome(RpcCall::Move(Ok(p)), id).2 == Some(
            ToRenderer::MoveCamera { direction: protocol::MoveDirection::Backward },
        ),
        p.direction@ == "left"@ ==> rpc_outcome(RpcCall::Move(Ok(p)), id).2 == Some(
            ToRenderer::MoveCamera { direction: protocol::MoveDirection::Left },
        ),
        p.direction@ == "right"@ ==> rpc_outcome(RpcCall::Move(Ok(p)), id).2 == Some(
            ToRenderer::MoveCamera { direction: protocol::MoveDirection::Right },
        ),
        rpc_outcome(RpcCall::Move(Ok(p)), id).2 is Some <==> (p.direction@ == "forward"@
            || p.direction@ == "backward"@ || p.direction@ == "left"@ || p.direction@
            == "right"@),
        rpc_outcome(RpcCall::Move(Ok(p)), id).2 is Some ==> rpc_outcome(
            RpcCall::Move(Ok(p)),
            id,
        ).0 == Some(RpcStatus::Done),
{
    reveal_strlit("forward");
    reveal_strlit("backward");
    reveal_strlit("left");
    reveal_strlit("right");
}

/// What each request is answered with: a pick is passed on with its own
/// screen point and answered as pending; bad parameters are refused with
/// code -32602 and the parser's message after "Invalid params: "; a
/// movement in an unknown direction with code -32602 and the name after
/// "Invalid direction: "; an unknown method with code -32601, "Method not
/// found".
pub proof fn law_rpc_answers(call: RpcCall, id: u64)
    ensures
        call matches RpcCall::Pick(Ok(p)) ==> rpc_outcome(call, id) == (
            Some(RpcStatus::Pending),
            None::<(i64, Seq<char>)>,
            Some(ToRenderer::PickRay { screen_x_bits: p.screen_x_bits, screen_y_bits: p.screen_y_bits }),
            None::<(u32, u32)>,
        ),
        call matches RpcCall::Pick(Err(e)) ==> rpc_outcome(call, id).1 == Some(
            (-32602i64, "Invalid params: "@ + e@),
        ) && rpc_outcome(call, id).2 is None,
        call matches RpcCall::Move(Err(e)) ==> rpc_outcome(call, id).1 == Some(
            (-32602i64, "Invalid params: "@ + e@),
        ) && rpc_outcome(call, id).2 is None,
        call matches RpcCall::Move(Ok(p)) ==> (rpc_outcome(call, id).2 is None ==> rpc_outcome(
            call,
            id,
        ).1 == Some((-32602i64, "Invalid direction: "@ + p.direction@))),
        call is Unknown ==> rpc_outcome(call, id) == (
            None::<RpcStatus>,
            Some((-32601i64, "Method not found"@)),
            None::<ToRenderer>,
            None::<(u32, u32)>,
        ),
{
    if let RpcCall::Move(Ok(p)) = call {
        law_move_goes_the_named_way(p, id);
    }
}

/// A resolution request is answered as done and never sends the renderer a
/// command; a missing side counts as 0. Both sides 0 ask for the native size
/// and are passed on as (0, 0); sizes from 1x1 up to 3840x2160 are passed on
/// as asked; anything else is dropped.
pub proof fn law_resolution_requests(width: Option<u64>, height: Option<u64>, id: u64)
    requires
        width matches Some(w) ==> w <= u32::MAX,
        height matches Some(h) ==> h <= u32::MAX,
    ensures
        ({
            let w: int = match width {
                Some(x) => x as int,
                None => 0,
            };
            let h: int = match height {
                Some(x) => x as int,
                None => 0,
            };
            let o = rpc_outcome(RpcCall::RenderResolution { width, height }, id);
            &&& o.0 == Some(RpcStatus::Done)
            &&& o.1 is None
            &&& o.2 is None
            &&& w == 0 && h == 0 ==> o.3 == Some((0u32, 0u32))
            &&& 1 <= w <= 3840 && 1 <= h <= 2160 ==> o.3 == Some((w as u32, h as u32))
            &&& !(w == 0 && h == 0) && !(1 <= w <= 3840 && 1 <= h <= 2160) ==> o.3 is None
        }),
{
}

} // verus!
