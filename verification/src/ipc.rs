//! The renderer's side of the IPC channel: commands received from the host
//! are queued until the systems that act on them drain them.

use vstd::prelude::*;
use crate::protocol::{IpcEnvelope, IpcPayload, MoveDirection, ToDesktop, ToRenderer};

verus! {

/// What the renderer has queued, and the next request id it hands out.
pub struct IpcChannelView {
    pub moves: Seq<MoveDirection>,
    /// Pending picks: request id and the `f32` bits of the screen point.
    pub picks: Seq<(u64, u32, u32)>,
    /// The latest resolution request: request id, width and height.
    pub resolution: Option<(u64, u32, u32)>,
    pub next_id: u64,
}

/// The queues after `envelope` was received.
pub open spec fn after_receive(v: IpcChannelView, envelope: IpcEnvelope) -> IpcChannelView {
    match envelope.payload {
        IpcPayload::ToRenderer(ToRenderer::MoveCamera { direction }) => IpcChannelView {
            moves: v.moves.push(direction),
            ..v
        },
        IpcPayload::ToRenderer(ToRenderer::PickRay { screen_x_bits, screen_y_bits }) => {
            IpcChannelView { picks: v.picks.push((envelope.id, screen_x_bits, screen_y_bits)), ..v }
        },
        IpcPayload::ToRenderer(ToRenderer::SetResolution { width, height }) => IpcChannelView {
            resolution: Some((envelope.id, width, height)),
            ..v
        },
        _ => v,
    }
}

/// What the renderer answers to `envelope` right away: a pong to a ping.
pub open spec fn reply_to(envelope: IpcEnvelope) -> Option<IpcEnvelope> {
    match envelope.payload {
        IpcPayload::ToRenderer(ToRenderer::Ping { timestamp }) => Some(
            IpcEnvelope { id: 0, payload: IpcPayload::ToDesktop(ToDesktop::Pong { timestamp }) },
        ),
        _ => None,
    }
}

/// The queues after each of `envelopes` was received in turn.
pub open spec fn after_receive_all(v: IpcChannelView, envelopes: Seq<IpcEnvelope>) -> IpcChannelView
    decreases envelopes.len(),
{
    if envelopes.len() == 0 {
        v
    } else {
        after_receive(after_receive_all(v, envelopes.drop_last()), envelopes.last())
    }
}

/// The camera movements among `envelopes`, in order.
pub open spec fn moves_in(envelopes: Seq<IpcEnvelope>) -> Seq<MoveDirection>
    decreases envelopes.len(),
{
    if envelopes.len() == 0 {
        Seq::empty()
    } else {
        let rest = moves_in(envelopes.drop_last());
        match envelopes.last().payload {
            IpcPayload::ToRenderer(ToRenderer::MoveCamera { direction }) => rest.push(direction),
            _ => rest,
        }
    }
}

/// The channel after one request id was handed out.
pub open spec fn after_alloc(v: IpcChannelView) -> IpcChannelView {
    IpcChannelView { next_id: (v.next_id + 1) as u64, ..v }
}

/// The channel after `n` request ids were handed out in turn.
pub open spec fn after_allocs(v: IpcChannelView, n: nat) -> IpcChannelView
    decreases n,
{
    if n == 0 {
        v
    } else {
        after_alloc(after_allocs(v, (n - 1) as nat))
    }
}

/// The ids that `n` requests in turn are handed out, in order.
pub open spec fn ids_handed_out(v: IpcChannelView, n: nat) -> Seq<u64>
    decreases n,
{
    if n == 0 {
        Seq::empty()
    } else {
        ids_handed_out(v, (n - 1) as nat).push(after_allocs(v, (n - 1) as nat).next_id)
    }
}

/// Queues of commands received from the host.
pub struct IpcChannel {
    pending_moves: Vec<MoveDirection>,
    pending_picks: Vec<(u64, u32, u32)>,
    pending_resolution: Option<(u64, u32, u32)>,
    next_id: u64,
}

impl View for IpcChannel {
    type V = IpcChannelView;

    closed spec fn view(&self) -> IpcChannelView {
        IpcChannelView {
            moves: self.pending_moves@,
            picks: self.pending_picks@,
            resolution: self.pending_resolution,
            next_id: self.next_id,
        }
    }
}

impl IpcChannel {
    /// Empty queues; request ids start at 1.
    pub fn new() -> (r: IpcChannel)
        ensures
            r@.moves == Seq::<MoveDirection>::empty(),
            r@.picks == Seq::<(u64, u32, u32)>::empty(),
            r@.resolution is None,
            r@.next_id == 1,
    {
        IpcChannel {
            pending_moves: Vec::new(),
            pending_picks: Vec::new(),
            pending_resolution: None,
            next_id: 1,
        }
    }

    /// Takes in one envelope from the host: movements and picks are queued,
    /// a resolution request replaces any pending one, a ping is answered with
    /// the returned pong, and a message meant for the host is ignored.
    pub fn receive(&mut self, envelope: IpcEnvelope) -> (reply: Option<IpcEnvelope>)
        ensures
            final(self)@ == after_receive(old(self)@, envelope),
            reply == reply_to(envelope),
    {
        let id = envelope.id;
        match envelope.payload {
            IpcPayload::ToRenderer(msg) => match msg {
                ToRenderer::MoveCamera { direction } => {
                    self.pending_moves.push(direction);
                    None
                },
                ToRenderer::PickRay { screen_x_bits, screen_y_bits } => {
                    self.pending_picks.push((id, screen_x_bits, screen_y_bits));
                    None
                },
                ToRenderer::SetResolution { width, height } => {
                    self.pending_resolution = Some((id, width, height));
                    None
                },
                ToRenderer::Ping { timestamp } => {
                    Some(IpcEnvelope::to_desktop(ToDesktop::Pong { timestamp }))
                },
            },
            IpcPayload::ToDesktop(_) => None,
        }
    }

    /// Takes all queued movements, oldest first.
    pub fn drain_moves(&mut self) -> (r: Vec<MoveDirection>)
        ensures
            r@ == old(self)@.moves,
            final(self)@ == (IpcChannelView { moves: Seq::empty(), ..old(self)@ }),
    {
        let mut taken = Vec::new();
        std::mem::swap(&mut taken, &mut self.pending_moves);
        taken
    }

    /// Takes all queued picks, oldest first.
    pub fn drain_picks(&mut self) -> (r: Vec<(u64, u32, u32)>)
        ensures
            r@ == old(self)@.picks,
            final(self)@ == (IpcChannelView { picks: Seq::empty(), ..old(self)@ }),
    {
        let mut taken = Vec::new();
        std::mem::swap(&mut taken, &mut self.pending_picks);
        taken
    }

    /// Takes the pending resolution request, if any.
    pub fn drain_resolution(&mut self) -> (r: Option<(u64, u32, u32)>)
        ensures
            r == old(self)@.resolution,
            final(self)@ == (IpcChannelView { resolution: None, ..old(self)@ }),
    {
        self.pending_resolution.take()
    }

    /// Hands out the next request id.
    pub fn alloc_id(&mut self) -> (id: u64)
        requires
            old(self)@.next_id < u64::MAX,
        ensures
            id == old(self)@.next_id,
            final(self)@ == after_alloc(old(self)@),
    {
        let id = self.next_id;
        self.next_id = self.next_id + 1;
        id
    }
}

/// Movements are handed out in the order they arrived, none lost and none
/// added, whatever other messages came between them.
pub proof fn law_moves_keep_order(envelopes: Seq<IpcEnvelope>, v: IpcChannelView)
    ensures
        after_receive_all(v, envelopes).moves == v.moves + moves_in(envelopes),
    decreases envelopes.len(),
{
    if envelopes.len() == 0 {
        assert(v.moves + Seq::<MoveDirection>::empty() =~= v.moves);
    } else {
        law_moves_keep_order(envelopes.drop_last(), v);
        let rest = after_receive_all(v, envelopes.drop_last());
        match envelopes.last().payload {
            IpcPayload::ToRenderer(ToRenderer::MoveCamera { direction }) => {
                assert(v.moves + moves_in(envelopes.drop_last()).push(direction) =~= (v.moves
                    + moves_in(envelopes.drop_last())).push(direction));
            },
            _ => {},
        }
    }
}

/// Request ids count up: `n` requests in turn are handed out `next_id`,
/// `next_id + 1`, and so on, all different, each call finding an id below
/// the limit; the queues stay as they were. From a new channel, whose next
/// id is 1, the ids are 1, 2, ..., n.
pub proof fn law_ids_count_up(v: IpcChannelView, n: nat)
    requires
        v.next_id + n <= u64::MAX,
    ensures
        ids_handed_out(v, n).len() == n,
        forall|i: int| 0 <= i < n ==> #[trigger] ids_handed_out(v, n)[i] == v.next_id + i,
        forall|i: int, j: int|
            0 <= i < j < n ==> #[trigger] ids_handed_out(v, n)[i] != #[trigger] ids_handed_out(
                v,
                n,
            )[j],
        forall|i: nat| i < n ==> #[trigger] after_allocs(v, i).next_id < u64::MAX,
        after_allocs(v, n) == (IpcChannelView { next_id: (v.next_id + n) as u64, ..v }),
    decreases n,
{
    if n > 0 {
        let m = (n - 1) as nat;
        law_ids_count_up(v, m);
        let prev = ids_handed_out(v, m);
        assert(ids_handed_out(v, n) == prev.push(after_allocs(v, m).next_id));
        assert forall|i: int| 0 <= i < n implies #[trigger] ids_handed_out(v, n)[i] == v.next_id
            + i by {
            if i < m {
                assert(prev[i] == v.next_id + i);
            }
        }
        assert forall|i: nat| i < n implies #[trigger] after_allocs(v, i).next_id < u64::MAX by {
            if i < m {
            } else {
                assert(i == m);
            }
        }
        assert(after_allocs(v, n) =~= (IpcChannelView { next_id: (v.next_id + n) as u64, ..v }));
    }
}

/// Of several resolution requests only the latest is kept, with its id.
pub proof fn law_latest_resolution_wins(v: IpcChannelView, a: IpcEnvelope, b: IpcEnvelope)
    requires
        a.payload matches IpcPayload::ToRenderer(ToRenderer::SetResolution { .. }),
        b.payload matches IpcPayload::ToRenderer(ToRenderer::SetResolution { width, height }),
    ensures
        after_receive(after_receive(v, a), b).resolution == (match b.payload {
            IpcPayload::ToRenderer(ToRenderer::SetResolution { width, height }) => Some(
                (b.id, width, height),
            ),
            _ => None,
        }),
{
}

/// The image size the renderer captures frames at.
#[derive(Clone, Copy, Debug, PartialEq, Eq, Structural)]
pub struct CaptureResolution {
    pub width: u32,
    pub height: u32,
}

impl CaptureResolution {
    pub fn new(width: u32, height: u32) -> (r: CaptureResolution)
        ensures
            r == (CaptureResolution { width, height }),
    {
        CaptureResolution { width, height }
    }
}

/// The size frames are captured at until the panel asks for another.
pub const DEFAULT_CAPTURE_WIDTH: u32 = 1280;
pub const DEFAULT_CAPTURE_HEIGHT: u32 = 800;

/// The capture size the embedded-browser host asks the renderer for when
/// the panel requests `width` x `height`: a request with a zero side means
/// the default size.
pub fn requested_or_default(width: u32, height: u32) -> (r: (u32, u32))
    ensures
        width == 0 || height == 0 ==> r == (DEFAULT_CAPTURE_WIDTH, DEFAULT_CAPTURE_HEIGHT),
        width != 0 && height != 0 ==> r == (width, height),
{
    if width == 0 || height == 0 {
        (DEFAULT_CAPTURE_WIDTH, DEFAULT_CAPTURE_HEIGHT)
    } else {
        (width, height)
    }
}

/// The size the desktop host forces on the renderer when the panel requests
/// `width` x `height`: none for (0, 0), which means the window's own size,
/// else the size requested.
pub fn resolution_override(width: u32, height: u32) -> (r: Option<(u32, u32)>)
    ensures
        width == 0 && height == 0 ==> r is None,
        !(width == 0 && height == 0) ==> r == Some((width, height)),
{
    if width == 0 && height == 0 {
        None
    } else {
        Some((width, height))
    }
}

/// Set when the capture image must be rebuilt at a new size.
#[derive(Clone, Copy, Debug, PartialEq, Eq, Structural)]
pub struct ResolutionDirty(pub bool);

impl ResolutionDirty {
    /// Whether the capture image is to be rebuilt now; the mark is cleared.
    pub fn take(&mut self) -> (rebuild: bool)
        ensures
            rebuild == old(self).0,
            *final(self) == ResolutionDirty(false),
    {
        let rebuild = self.0;
        self.0 = false;
        rebuild
    }
}

impl Default for ResolutionDirty {
    fn default() -> (r: ResolutionDirty)
        ensures
            r == ResolutionDirty(false),
    {
        ResolutionDirty(false)
    }
}

/// Applies a pending resolution request, if there is one: the capture size
/// takes the requested width and height, and the image is marked for a
/// rebuild. Returns the request applied.
pub fn apply_resolution(
    ipc: &mut IpcChannel,
    res: &mut CaptureResolution,
    dirty: &mut ResolutionDirty,
) -> (applied: Option<(u64, u32, u32)>)
    ensures
        applied == old(ipc)@.resolution,
        final(ipc)@ == (IpcChannelView { resolution: None, ..old(ipc)@ }),
        match applied {
            Some((_, w, h)) => *final(res) == CaptureResolution { width: w, height: h }
                && *final(dirty) == ResolutionDirty(true),
            None => *final(res) == *old(res) && *final(dirty) == *old(dirty),
        },
{
    let request = ipc.drain_resolution();
    if let Some((_, width, height)) = request {
        res.width = width;
        res.height = height;
        dirty.0 = true;
    }
    request
}

/// The pick requests among `envelopes`, in order: each one's request id and
/// screen point.
pub open spec fn picks_in(envelopes: Seq<IpcEnvelope>) -> Seq<(u64, u32, u32)>
    decreases envelopes.len(),
{
    if envelopes.len() == 0 {
        Seq::empty()
    } else {
        let rest = picks_in(envelopes.drop_last());
        match envelopes.last().payload {
            IpcPayload::ToRenderer(ToRenderer::PickRay { screen_x_bits, screen_y_bits }) => rest.push(
                (envelopes.last().id, screen_x_bits, screen_y_bits),
            ),
            _ => rest,
        }
    }
}

/// Picks are queued in the order they arrive, each under its own request id,
/// none lost and none added, whatever other messages came between them; a
/// pick leaves the movements and the resolution request as they were.
pub proof fn law_picks_keep_order(envelopes: Seq<IpcEnvelope>, v: IpcChannelView)
    ensures
        after_receive_all(v, envelopes).picks == v.picks + picks_in(envelopes),
    decreases envelopes.len(),
{
    if envelopes.len() == 0 {
        assert(v.picks + Seq::<(u64, u32, u32)>::empty() =~= v.picks);
    } else {
        law_picks_keep_order(envelopes.drop_last(), v);
        match envelopes.last().payload {
            IpcPayload::ToRenderer(ToRenderer::PickRay { screen_x_bits, screen_y_bits }) => {
                assert(v.picks + picks_in(envelopes.drop_last()).push(
                    (envelopes.last().id, screen_x_bits, screen_y_bits),
                ) =~= (v.picks + picks_in(envelopes.drop_last())).push(
                    (envelopes.last().id, screen_x_bits, screen_y_bits),
                ));
            },
            _ => {},
        }
    }
}

/// A pick adds exactly itself to the end of the queue of picks and touches
/// nothing else.
pub proof fn law_pick_is_queued(v: IpcChannelView, envelope: IpcEnvelope, x: u32, y: u32)
    requires
        envelope.payload == IpcPayload::ToRenderer(
            ToRenderer::PickRay { screen_x_bits: x, screen_y_bits: y },
        ),
    ensures
        after_receive(v, envelope).picks.len() == v.picks.len() + 1,
        after_receive(v, envelope).picks.subrange(0, v.picks.len() as int) == v.picks,
        after_receive(v, envelope).picks.last() == (envelope.id, x, y),
        after_receive(v, envelope).moves == v.moves,
        after_receive(v, envelope).resolution == v.resolution,
        after_receive(v, envelope).next_id == v.next_id,
{
    assert(after_receive(v, envelope).picks.subrange(0, v.picks.len() as int) =~= v.picks);
}

/// Only a ping is answered right away, with a pong that carries the ping's
/// timestamp back; a ping changes none of the queues.
pub proof fn law_ping_gets_pong(v: IpcChannelView, envelope: IpcEnvelope)
    ensures
        reply_to(envelope) is Some <==> envelope.payload matches IpcPayload::ToRenderer(
            ToRenderer::Ping { .. },
        ),
        envelope.payload matches IpcPayload::ToRenderer(ToRenderer::Ping { timestamp })
            ==> reply_to(envelope) matches Some(r) && r.payload == IpcPayload::ToDesktop(
            ToDesktop::Pong { timestamp },
        ) && after_receive(v, envelope) == v,
        envelope.payload is ToDesktop ==> after_receive(v, envelope) == v && reply_to(
            envelope,
        ) is None,
{
}

} // verus!
