//! Messages between the desktop host and the renderer process, and the
//! line framing that carries them over the renderer's standard streams.
//!
//! Floating-point fields travel as their IEEE-754 bit patterns: the library
//! passes them through and never computes with them.

use vstd::prelude::*;
use crate::text::push_char;

verus! {

/// A camera movement requested by the panel.
#[derive(Clone, Copy, Debug, PartialEq, Eq, Structural)]
pub enum MoveDirection {
    Forward,
    Backward,
    Left,
    Right,
}

/// Severity of a log message from the renderer.
#[derive(Clone, Copy, Debug, PartialEq, Eq, Structural)]
pub enum LogLevel {
    Info,
    Warn,
    Error,
    Debug,
}

/// Commands for the renderer.
#[derive(Clone, Debug, PartialEq, Eq)]
pub enum ToRenderer {
    MoveCamera { direction: MoveDirection },
    /// Pick the object under a screen point; coordinates as `f32` bits.
    PickRay { screen_x_bits: u32, screen_y_bits: u32 },
    SetResolution { width: u32, height: u32 },
    Ping { timestamp: u64 },
}

/// Messages from the renderer to the desktop host.
#[derive(Clone, Debug, PartialEq, Eq)]
pub enum ToDesktop {
    /// Answer to a pick; coordinates as `f32` bits.
    PickResult { request_id: u64, cube_id: Option<String>, screen_x_bits: u32, screen_y_bits: u32 },
    Pong { timestamp: u64 },
    FrameDimensions { width: u32, height: u32 },
    Log { level: LogLevel, message: String },
    Error { request_id: u64, code: i64, message: String },
    /// Frame rate report; `fps_bits` are the bits of an `f64`.
    FpsReport { fps_bits: u64, frame_count: u64 },
}

/// The body of an envelope, tagged with its direction.
#[derive(Clone, Debug, PartialEq, Eq)]
pub enum IpcPayload {
    ToRenderer(ToRenderer),
    ToDesktop(ToDesktop),
}

/// One message on the IPC channel; `id` ties a reply to its request, and is
/// 0 where there is none.
#[derive(Clone, Debug, PartialEq, Eq)]
pub struct IpcEnvelope {
    pub id: u64,
    pub payload: IpcPayload,
}

impl IpcEnvelope {
    /// An unnumbered command for the renderer.
    pub fn to_renderer(payload: ToRenderer) -> (r: IpcEnvelope)
        ensures
            r == (IpcEnvelope { id: 0, payload: IpcPayload::ToRenderer(payload) }),
    {
        IpcEnvelope { id: 0, payload: IpcPayload::ToRenderer(payload) }
    }

    /// A command for the renderer numbered `id`.
    pub fn to_renderer_with_id(id: u64, payload: ToRenderer) -> (r: IpcEnvelope)
        ensures
            r == (IpcEnvelope { id, payload: IpcPayload::ToRenderer(payload) }),
    {
        IpcEnvelope { id, payload: IpcPayload::ToRenderer(payload) }
    }

    /// An unnumbered message for the desktop host.
    pub fn to_desktop(payload: ToDesktop) -> (r: IpcEnvelope)
        ensures
            r == (IpcEnvelope { id: 0, payload: IpcPayload::ToDesktop(payload) }),
    {
        IpcEnvelope { id: 0, payload: IpcPayload::ToDesktop(payload) }
    }

    /// A reply to request `request_id`, for the desktop host.
    pub fn to_desktop_reply(request_id: u64, payload: ToDesktop) -> (r: IpcEnvelope)
        ensures
            r == (IpcEnvelope { id: request_id, payload: IpcPayload::ToDesktop(payload) }),
    {
        IpcEnvelope { id: request_id, payload: IpcPayload::ToDesktop(payload) }
    }
}

/// The message an envelope read from the renderer carries for the host:
/// its body if it is meant for the host, nothing if it is a command.
pub fn route_from_renderer(envelope: IpcEnvelope) -> (r: Option<ToDesktop>)
    ensures
        r == (match envelope.payload {
            IpcPayload::ToDesktop(msg) => Some(msg),
            IpcPayload::ToRenderer(_) => None,
        }),
{
    match envelope.payload {
        IpcPayload::ToDesktop(msg) => Some(msg),
        IpcPayload::ToRenderer(_) => None,
    }
}

/// Marks a line on the renderer's error stream as an IPC message.
pub const IPC_PREFIX: &'static str = "__IPC__";

/// The characters of `IPC_PREFIX`.
pub open spec fn ipc_prefix() -> Seq<char> {
    seq!['_', '_', 'I', 'P', 'C', '_', '_']
}

/// Whether `c` is white space in the sense of Unicode's White_Space
/// property, which is what `str::trim` removes.
pub open spec fn is_white_space(c: char) -> bool {
    ||| '\u{9}' <= c && c <= '\u{d}'
    ||| c == ' '
    ||| c == '\u{85}'
    ||| c == '\u{a0}'
    ||| c == '\u{1680}'
    ||| '\u{2000}' <= c && c <= '\u{200a}'
    ||| c == '\u{2028}'
    ||| c == '\u{2029}'
    ||| c == '\u{202f}'
    ||| c == '\u{205f}'
    ||| c == '\u{3000}'
}

/// Whether `c` is Unicode white space.
pub fn char_is_white_space(c: char) -> (r: bool)
    ensures
        r == is_white_space(c),
{
    ('\u{9}' <= c && c <= '\u{d}') || c == ' ' || c == '\u{85}' || c == '\u{a0}' || c
        == '\u{1680}' || ('\u{2000}' <= c && c <= '\u{200a}') || c == '\u{2028}' || c
        == '\u{2029}' || c == '\u{202f}' || c == '\u{205f}' || c == '\u{3000}'
}

/// `s` without its leading white space.
pub open spec fn trim_start(s: Seq<char>) -> Seq<char>
    decreases s.len(),
{
    if s.len() > 0 && is_white_space(s[0]) {
        trim_start(s.drop_first())
    } else {
        s
    }
}

/// `s` without its trailing white space.
pub open spec fn trim_end(s: Seq<char>) -> Seq<char>
    decreases s.len(),
{
    if s.len() > 0 && is_white_space(s.last()) {
        trim_end(s.drop_last())
    } else {
        s
    }
}

/// `s` without leading and trailing white space.
pub open spec fn trimmed(s: Seq<char>) -> Seq<char> {
    trim_end(trim_start(s))
}

/// What `trim_start` leaves is a suffix of `s` from `i` on: every character
/// before `i` is white space, and the one at `i`, if any, is not.
proof fn lemma_trim_start_at(s: Seq<char>, i: int)
    requires
        0 <= i <= s.len(),
        forall|k: int| 0 <= k < i ==> is_white_space(#[trigger] s[k]),
        i < s.len() ==> !is_white_space(s[i]),
    ensures
        trim_start(s) == s.subrange(i, s.len() as int),
    decreases i,
{
    if i > 0 {
        let t = s.drop_first();
        assert forall|k: int| 0 <= k < i - 1 implies is_white_space(#[trigger] t[k]) by {
            assert(t[k] == s[k + 1]);
        }
        lemma_trim_start_at(t, i - 1);
        assert(t.subrange(i - 1, t.len() as int) =~= s.subrange(i, s.len() as int));
    } else {
        assert(s.subrange(0, s.len() as int) =~= s);
    }
}

/// What `trim_end` leaves is a prefix of `s` up to `j`: every character from
/// `j` on is white space, and the one before `j`, if any, is not.
proof fn lemma_trim_end_at(s: Seq<char>, j: int)
    requires
        0 <= j <= s.len(),
        forall|k: int| j <= k < s.len() ==> is_white_space(#[trigger] s[k]),
        j > 0 ==> !is_white_space(s[j - 1]),
    ensures
        trim_end(s) == s.subrange(0, j),
    decreases s.len() - j,
{
    if j < s.len() {
        let t = s.drop_last();
        assert forall|k: int| j <= k < t.len() implies is_white_space(#[trigger] t[k]) by {
            assert(t[k] == s[k]);
        }
        lemma_trim_end_at(t, j);
        assert(t.subrange(0, j) =~= s.subrange(0, j));
    } else {
        assert(s.subrange(0, j) =~= s);
    }
}

/// `line` without leading and trailing white space.
pub fn trim_line(line: &str) -> (r: String)
    ensures
        r@ == trimmed(line@),
{
    let n = line.unicode_len();
    let mut start: usize = 0;
    while start < n && char_is_white_space(line.get_char(start))
        invariant
            n == line@.len(),
            start <= n,
            forall|k: int| 0 <= k < start ==> is_white_space(#[trigger] line@[k]),
        decreases n - start,
    {
        start = start + 1;
    }
    proof {
        lemma_trim_start_at(line@, start as int);
    }
    let ghost rest = line@.subrange(start as int, n as int);
    let mut end: usize = n;
    while end > start && char_is_white_space(line.get_char(end - 1))
        invariant
            n == line@.len(),
            start <= end <= n,
            rest == line@.subrange(start as int, n as int),
            forall|k: int| end <= k < n ==> is_white_space(#[trigger] line@[k]),
        decreases end - start,
    {
        end = end - 1;
    }
    proof {
        assert forall|k: int| end - start <= k < rest.len() implies is_white_space(
            #[trigger] rest[k],
        ) by {
            assert(rest[k] == line@[k + start]);
        }
        if end > start {
            assert(rest[end - start - 1] == line@[end - 1]);
        }
        lemma_trim_end_at(rest, end - start);
        assert(rest.subrange(0, end - start) =~= line@.subrange(start as int, end as int));
    }
    String::from_str(line.substring_char(start, end))
}

/// A line read from the renderer's error stream, once trimmed.
#[derive(Clone, Debug, PartialEq, Eq)]
pub enum SidecarLine {
    /// An IPC message: the text after the prefix.
    Ipc(String),
    /// Any other line: renderer log output.
    Log(String),
}

/// What a trimmed line `t` is.
pub open spec fn classify(t: Seq<char>) -> (bool, Seq<char>) {
    if t.len() >= 7 && t.subrange(0, 7) == ipc_prefix() {
        (true, t.subrange(7, t.len() as int))
    } else {
        (false, t)
    }
}

/// Trims `line` and tells an IPC message, marked by `IPC_PREFIX`, from log
/// output.
pub fn classify_sidecar_line(line: &str) -> (r: SidecarLine)
    ensures
        match r {
            SidecarLine::Ipc(json) => classify(trimmed(line@)) == (true, json@),
            SidecarLine::Log(text) => classify(trimmed(line@)) == (false, text@),
        },
{
    let t = trim_line(line);
    let ts = t.as_str();
    let n = ts.unicode_len();
    if n >= 7 && ts.get_char(0) == '_' && ts.get_char(1) == '_' && ts.get_char(2) == 'I'
        && ts.get_char(3) == 'P' && ts.get_char(4) == 'C' && ts.get_char(5) == '_'
        && ts.get_char(6) == '_' {
        assert(ts@.subrange(0, 7) =~= ipc_prefix());
        SidecarLine::Ipc(String::from_str(ts.substring_char(7, n)))
    } else {
        proof {
            if n >= 7 && ts@.subrange(0, 7) == ipc_prefix() {
                assert(ts@[0] == ts@.subrange(0, 7)[0]);
                assert(ts@[1] == ts@.subrange(0, 7)[1]);
                assert(ts@[2] == ts@.subrange(0, 7)[2]);
                assert(ts@[3] == ts@.subrange(0, 7)[3]);
                assert(ts@[4] == ts@.subrange(0, 7)[4]);
                assert(ts@[5] == ts@.subrange(0, 7)[5]);
                assert(ts@[6] == ts@.subrange(0, 7)[6]);
            }
        }
        SidecarLine::Log(t)
    }
}

/// The line that carries `json` as an IPC message: the prefix, then `json`.
pub fn ipc_line(json: &str) -> (r: String)
    ensures
        r@ == ipc_prefix() + json@,
{
    let mut out = String::new();
    push_char(&mut out, '_');
    push_char(&mut out, '_');
    push_char(&mut out, 'I');
    push_char(&mut out, 'P');
    push_char(&mut out, 'C');
    push_char(&mut out, '_');
    push_char(&mut out, '_');
    out.append(json);
    assert(out@ =~= ipc_prefix() + json@);
    out
}

/// An IPC line is recognized as such on the other end, and yields the
/// message text unchanged, whenever that text has no white space at either
/// end, as serialized JSON has not.
pub proof fn law_ipc_line_roundtrip(json: Seq<char>)
    requires
        json.len() > 0 ==> !is_white_space(json[0]) && !is_white_space(json.last()),
    ensures
        classify(trimmed(ipc_prefix() + json)) == (true, json),
{
    let s = ipc_prefix() + json;
    lemma_trim_start_at(s, 0);
    assert forall|k: int| s.len() <= k < s.len() implies is_white_space(#[trigger] s[k]) by {}
    if json.len() > 0 {
        assert(s[s.len() - 1] == json.last());
    }
    assert(s.subrange(0, s.len() as int) =~= s);
    lemma_trim_end_at(s, s.len() as int);
    assert(s.subrange(0, 7) =~= ipc_prefix());
    assert(s.subrange(7, s.len() as int) =~= json);
}

} // verus!
