//! The decisions of the server's socket session with the panel: the
//! snapshot it opens with, what each thing that happens during the session
//! calls for, and the updates a tick sends. Reading sensors, waiting on
//! channels and the socket itself are the caller's.

use vstd::prelude::*;
use crate::cube::{update_params, CubeSensorData, CubeView, SensorUpdateParams};
use crate::proto::RendererFpsParams;
use crate::protocol::ToDesktop;

verus! {

/// Something that happened during a session.
pub enum SessionEvent {
    /// The once-a-second tick.
    Tick,
    /// A line from the renderer's log, or `None` where the log channel gave
    /// none.
    LogLine(Option<String>),
    /// A message from the renderer, or `None` where its channel gave none.
    FromRenderer(Option<ToDesktop>),
    /// A text message from the panel.
    Text(String),
    /// The panel closed the socket, or the socket ended.
    Closed,
    /// Any other message from the panel.
    OtherMessage,
    /// Sending to the panel failed.
    SendFailed,
}

/// What the session does next.
pub enum SessionAction {
    /// Send the `sensor.snapshot` of all cubes.
    SendSnapshot,
    /// Read each cube's sensor, in the order of the cube list, and send the
    /// updates that `tick_updates` makes of the readings, in order.
    SendUpdates,
    /// Send a `renderer.log` notification with this line.
    SendLog(String),
    /// Send a `renderer.fps` notification with these parameters.
    SendFps(RendererFpsParams),
    /// Answer the request in this text, if it parses as one.
    Answer(String),
    /// Nothing; wait for the next event.
    Wait,
    /// End the session.
    Stop,
}

/// What a running session does after `event`: a tick sends the sensor
/// updates, a log line and a frame rate report are passed on, text from the
/// panel is answered, a closed socket or a failed send ends the session, and
/// anything else is let go.
pub open spec fn session_action(event: SessionEvent) -> SessionAction {
    match event {
        SessionEvent::Tick => SessionAction::SendUpdates,
        SessionEvent::LogLine(Some(line)) => SessionAction::SendLog(line),
        SessionEvent::FromRenderer(Some(ToDesktop::FpsReport { fps_bits, frame_count })) => {
            SessionAction::SendFps(RendererFpsParams { fps_bits, frame_count })
        },
        SessionEvent::Text(text) => SessionAction::Answer(text),
        SessionEvent::Closed => SessionAction::Stop,
        SessionEvent::SendFailed => SessionAction::Stop,
        _ => SessionAction::Wait,
    }
}

/// What a running session does after `event`.
pub fn next_session_action(event: SessionEvent) -> (r: SessionAction)
    ensures
        r == session_action(event),
{
    match event {
        SessionEvent::Tick => SessionAction::SendUpdates,
        SessionEvent::LogLine(Some(line)) => SessionAction::SendLog(line),
        SessionEvent::FromRenderer(Some(ToDesktop::FpsReport { fps_bits, frame_count })) => {
            SessionAction::SendFps(RendererFpsParams { fps_bits, frame_count })
        },
        SessionEvent::Text(text) => SessionAction::Answer(text),
        SessionEvent::Closed => SessionAction::Stop,
        SessionEvent::SendFailed => SessionAction::Stop,
        _ => SessionAction::Wait,
    }
}

/// One step of a session that has or has not ended: whether it has ended
/// afterwards, and what it does. An ended session does nothing but stop.
pub open spec fn session_step(ended: bool, event: SessionEvent) -> (bool, SessionAction) {
    if ended {
        (true, SessionAction::Stop)
    } else {
        let a = session_action(event);
        (a is Stop, a)
    }
}

/// A session's steps over `events` in turn: whether it has ended, and what
/// it did at each event.
pub open spec fn session_run(ended: bool, events: Seq<SessionEvent>) -> (bool, Seq<SessionAction>)
    decreases events.len(),
{
    if events.len() == 0 {
        (ended, Seq::empty())
    } else {
        let before = session_run(ended, events.drop_last());
        let step = session_step(before.0, events.last());
        (step.0, before.1.push(step.1))
    }
}

/// Everything a session does when `events` happen after it opened: the
/// snapshot, then one action per event.
pub open spec fn session_actions(events: Seq<SessionEvent>) -> Seq<SessionAction> {
    seq![SessionAction::SendSnapshot] + session_run(false, events).1
}

/// The state of a session: whether it has ended.
pub struct Session {
    ended: bool,
}

impl View for Session {
    type V = bool;

    closed spec fn view(&self) -> bool {
        self.ended
    }
}

impl Session {
    /// Opens a session; the first thing it does is send the snapshot.
    pub fn open() -> (r: (Session, SessionAction))
        ensures
            !r.0@,
            r.1 is SendSnapshot,
    {
        (Session { ended: false }, SessionAction::SendSnapshot)
    }

    /// What the session does after `event`; once it has stopped, it only
    /// stops again.
    pub fn next(&mut self, event: SessionEvent) -> (r: SessionAction)
        ensures
            (final(self)@, r) == session_step(old(self)@, event),
    {
        if self.ended {
            return SessionAction::Stop;
        }
        let a = next_session_action(event);
        if let SessionAction::Stop = a {
            self.ended = true;
        }
        a
    }
}

/// A session opens with the snapshot and sends it at no other time; it does
/// one thing per event after that; and once it has stopped (the panel went
/// away, or a send failed, the snapshot's included) it does nothing else.
pub proof fn law_session_opens_with_snapshot(events: Seq<SessionEvent>)
    ensures
        session_actions(events).len() == events.len() + 1,
        session_actions(events)[0] is SendSnapshot,
        forall|i: int|
            0 < i < session_actions(events).len() ==> !(#[trigger] session_actions(
                events,
            )[i] is SendSnapshot),
        forall|i: int, j: int|
            #![trigger session_actions(events)[i], session_actions(events)[j]]
            0 <= i < j < session_actions(events).len() && session_actions(events)[i] is Stop
                ==> session_actions(events)[j] is Stop,
{
    lemma_run(events);
    let acts = session_actions(events);
    let run = session_run(false, events).1;
    assert forall|i: int| 0 < i < acts.len() implies !(#[trigger] acts[i] is SendSnapshot) by {
        assert(acts[i] == run[i - 1]);
    }
    assert forall|i: int, j: int|
        #![trigger acts[i], acts[j]]
        0 <= i < j < acts.len() && acts[i] is Stop implies acts[j] is Stop by {
        assert(acts[j] == run[j - 1]);
        if i > 0 {
            assert(acts[i] == run[i - 1]);
        }
    }
}

/// What `session_run` from a running session gives: one action per event,
/// never the snapshot, ended exactly when some action was a stop, and only
/// stops after the first stop.
proof fn lemma_run(events: Seq<SessionEvent>)
    ensures
        session_run(false, events).1.len() == events.len(),
        forall|i: int|
            0 <= i < events.len() ==> !(#[trigger] session_run(false, events).1[i] is SendSnapshot),
        session_run(false, events).0 <==> exists|i: int|
            0 <= i < events.len() && #[trigger] session_run(false, events).1[i] is Stop,
        forall|i: int, j: int|
            #![trigger session_run(false, events).1[i], session_run(false, events).1[j]]
            0 <= i < j < events.len() && session_run(false, events).1[i] is Stop
                ==> session_run(false, events).1[j] is Stop,
    decreases events.len(),
{
    if events.len() > 0 {
        let rest = events.drop_last();
        lemma_run(rest);
        let before = session_run(false, rest);
        let step = session_step(before.0, events.last());
        let run = session_run(false, events);
        assert(run.1 == before.1.push(step.1));
        assert forall|i: int| 0 <= i < events.len() implies !(#[trigger] run.1[i] is SendSnapshot) by {
            if i < rest.len() {
                assert(run.1[i] == before.1[i]);
            }
        }
        assert forall|i: int, j: int|
            #![trigger run.1[i], run.1[j]]
            0 <= i < j < events.len() && run.1[i] is Stop implies run.1[j] is Stop by {
            assert(run.1[i] == before.1[i]);
            if j < rest.len() {
                assert(run.1[j] == before.1[j]);
            } else {
                assert(before.0);
            }
        }
        if run.0 {
            if before.0 {
                let k = choose|k: int| 0 <= k < rest.len() && #[trigger] before.1[k] is Stop;
                assert(run.1[k] == before.1[k]);
            } else {
                assert(run.1[rest.len() as int] is Stop);
            }
        } else {
            assert forall|i: int| 0 <= i < events.len() implies !(#[trigger] run.1[i] is Stop) by {
                if i < rest.len() {
                    assert(run.1[i] == before.1[i]);
                }
            }
        }
    }
}

/// The value of a `sensor.update`: cube id, temperature and humidity bits,
/// timestamp.
pub open spec fn update_value(u: SensorUpdateParams) -> (Seq<char>, u64, u64, i64) {
    (u.cube_id@, u.temperature_bits, u.humidity_bits, u.timestamp)
}

/// The value of the `sensor.update` for a cube's reading.
pub open spec fn reading_update(c: CubeView) -> (Seq<char>, u64, u64, i64) {
    (c.id, c.temperature_bits, c.humidity_bits, c.timestamp)
}

/// The updates a tick sends for `readings`, taken in the order of the cube
/// list: one per cube whose sensor gave a reading, in that order.
pub open spec fn tick_updates_of(readings: Seq<Option<CubeView>>) -> Seq<(Seq<char>, u64, u64, i64)>
    decreases readings.len(),
{
    if readings.len() == 0 {
        Seq::empty()
    } else {
        let rest = tick_updates_of(readings.drop_last());
        match readings.last() {
            Some(c) => rest.push(reading_update(c)),
            None => rest,
        }
    }
}

/// The readings that are present, in order.
pub open spec fn present_readings(readings: Seq<Option<CubeView>>) -> Seq<CubeView>
    decreases readings.len(),
{
    if readings.len() == 0 {
        Seq::empty()
    } else {
        let rest = present_readings(readings.drop_last());
        match readings.last() {
            Some(c) => rest.push(c),
            None => rest,
        }
    }
}

/// A tick sends one update per present reading, in order, and each update
/// copies its reading: the cube's id, its temperature, its humidity and its
/// timestamp.
pub proof fn law_tick_updates_copy_readings(readings: Seq<Option<CubeView>>)
    ensures
        tick_updates_of(readings).len() == present_readings(readings).len(),
        forall|i: int|
            0 <= i < tick_updates_of(readings).len() ==> #[trigger] tick_updates_of(readings)[i]
                == (
                present_readings(readings)[i].id,
                present_readings(readings)[i].temperature_bits,
                present_readings(readings)[i].humidity_bits,
                present_readings(readings)[i].timestamp,
            ),
    decreases readings.len(),
{
    if readings.len() > 0 {
        let rest = readings.drop_last();
        law_tick_updates_copy_readings(rest);
        assert forall|i: int| 0 <= i < tick_updates_of(readings).len() implies #[trigger] tick_updates_of(
            readings,
        )[i] == (
            present_readings(readings)[i].id,
            present_readings(readings)[i].temperature_bits,
            present_readings(readings)[i].humidity_bits,
            present_readings(readings)[i].timestamp,
        ) by {
            if i < tick_updates_of(rest).len() {
                assert(tick_updates_of(readings)[i] == tick_updates_of(rest)[i]);
                assert(present_readings(readings)[i] == present_readings(rest)[i]);
            }
        }
    }
}

/// The values of a list of readings.
pub open spec fn reading_views(readings: Seq<Option<CubeSensorData>>) -> Seq<Option<CubeView>> {
    readings.map_values(
        |o: Option<CubeSensorData>|
            match o {
                Some(c) => Some(c@),
                None => None,
            },
    )
}

/// The updates a tick sends, given each cube's reading in the order of the
/// cube list (`None` where its sensor gave none).
pub fn tick_updates(readings: &Vec<Option<CubeSensorData>>) -> (r: Vec<SensorUpdateParams>)
    ensures
        r@.map_values(|u: SensorUpdateParams| update_value(u)) == tick_updates_of(
            reading_views(readings@),
        ),
        r@.len() == present_readings(reading_views(readings@)).len(),
        forall|i: int|
            0 <= i < r@.len() ==> {
                let c = #[trigger] present_readings(reading_views(readings@))[i];
                &&& r@[i].cube_id@ == c.id
                &&& r@[i].temperature_bits == c.temperature_bits
                &&& r@[i].humidity_bits == c.humidity_bits
                &&& r@[i].timestamp == c.timestamp
            },
{
    let ghost views = reading_views(readings@);
    let mut out: Vec<SensorUpdateParams> = Vec::new();
    let n = readings.len();
    let mut i: usize = 0;
    while i < n
        invariant
            n == readings@.len(),
            views == reading_views(readings@),
            i <= n,
            out@.map_values(|u: SensorUpdateParams| update_value(u)) == tick_updates_of(
                views.subrange(0, i as int),
            ),
        decreases n - i,
    {
        let ghost before = out@;
        assert(views.subrange(0, i + 1).drop_last() =~= views.subrange(0, i as int));
        assert(views.subrange(0, i + 1).last() == views[i as int]);
        match &readings[i] {
            Some(c) => {
                let u = update_params(c);
                out.push(u);
                assert(out@.map_values(|u: SensorUpdateParams| update_value(u)) =~= before.map_values(
                    |u: SensorUpdateParams| update_value(u),
                ).push(update_value(u)));
            },
            None => {},
        }
        i = i + 1;
    }
    assert(views.subrange(0, n as int) =~= views);
    proof {
        law_tick_updates_copy_readings(views);
        let m = out@.map_values(|u: SensorUpdateParams| update_value(u));
        assert forall|i: int| 0 <= i < out@.len() implies {
            let c = #[trigger] present_readings(views)[i];
            &&& out@[i].cube_id@ == c.id
            &&& out@[i].temperature_bits == c.temperature_bits
            &&& out@[i].humidity_bits == c.humidity_bits
            &&& out@[i].timestamp == c.timestamp
        } by {
            assert(m[i] == update_value(out@[i]));
            assert(m[i] == tick_updates_of(views)[i]);
        }
    }
    out
}

/// What a running session does on each kind of event: only a closed socket
/// or a failed send ends it; a message from the renderer is passed on if it
/// is a frame-rate report, with its rate and count, and let go otherwise; a
/// log line and text from the panel are passed on as they came; a tick sends
/// the updates; and the snapshot is never sent again.
pub proof fn law_session_reacts_to_events(event: SessionEvent)
    ensures
        session_action(event) is Stop <==> (event is Closed || event is SendFailed),
        !(session_action(event) is SendSnapshot),
        event is Tick <==> session_action(event) is SendUpdates,
        match event {
            SessionEvent::FromRenderer(Some(m)) => match m {
                ToDesktop::FpsReport { fps_bits, frame_count } => session_action(event)
                    matches SessionAction::SendFps(p) && p.fps_bits == fps_bits && p.frame_count
                    == frame_count,
                _ => session_action(event) is Wait,
            },
            SessionEvent::FromRenderer(None) => session_action(event) is Wait,
            SessionEvent::LogLine(Some(line)) => session_action(event) matches SessionAction::SendLog(
                l,
            ) && l == line,
            SessionEvent::LogLine(None) => session_action(event) is Wait,
            SessionEvent::Text(t) => session_action(event) matches SessionAction::Answer(a) && a
                == t,
            SessionEvent::OtherMessage => session_action(event) is Wait,
            _ => true,
        },
{
}

} // verus!
