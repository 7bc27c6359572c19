//! An in-process double buffer for frames, with a wake-up for those who
//! wait on the next frame.

use vstd::prelude::*;
use std::sync::Arc;
use tokio::sync::Notify;

verus! {

/// tokio's wake-up primitive, carried opaquely.
#[verifier::external_type_specification]
#[verifier::external_body]
pub struct ExNotify(tokio::sync::Notify);

/// A fresh wake-up primitive with no stored permit.
///
/// Trusted: calls `tokio::sync::Notify::new`; nothing is stated of the value.
#[verifier::external_body]
fn new_notify() -> Notify {
    Notify::new()
}

/// Wakes every task that currently waits on `notify`.
///
/// Trusted: calls `tokio::sync::Notify::notify_waiters`; it changes nothing
/// the library can observe, so nothing is stated.
#[verifier::external_body]
fn notify_waiters(notify: &Notify) {
    notify.notify_waiters()
}

/// The frames of a double buffer and its counters.
pub struct FrameBufferView {
    pub front: Seq<u8>,
    pub back: Seq<u8>,
    pub width: u32,
    pub height: u32,
    pub seq: u64,
}

/// A front buffer that readers take frames from, a back buffer that the
/// producer fills, and the number of swaps so far.
pub struct FrameBuffer {
    pub front: Vec<u8>,
    pub back: Vec<u8>,
    pub width: u32,
    pub height: u32,
    pub seq: u64,
    pub notify: Arc<Notify>,
}

impl View for FrameBuffer {
    type V = FrameBufferView;

    open spec fn view(&self) -> FrameBufferView {
        FrameBufferView {
            front: self.front@,
            back: self.back@,
            width: self.width,
            height: self.height,
            seq: self.seq,
        }
    }
}

/// The double buffer after one swap.
pub open spec fn swapped(v: FrameBufferView) -> FrameBufferView {
    FrameBufferView { front: v.back, back: v.front, seq: (v.seq + 1) as u64, ..v }
}

impl FrameBuffer {
    /// Empty buffers, no size, no frame yet.
    pub fn new() -> (r: FrameBuffer)
        ensures
            r@ == (FrameBufferView {
                front: Seq::empty(),
                back: Seq::empty(),
                width: 0,
                height: 0,
                seq: 0,
            }),
    {
        FrameBuffer {
            front: Vec::new(),
            back: Vec::new(),
            width: 0,
            height: 0,
            seq: 0,
            notify: Arc::new(new_notify()),
        }
    }

    /// Makes the back buffer the front one and the other way round, counts
    /// the swap, and wakes those waiting for a frame.
    pub fn swap(&mut self)
        requires
            old(self)@.seq < u64::MAX,
        ensures
            final(self)@ == swapped(old(self)@),
    {
        std::mem::swap(&mut self.front, &mut self.back);
        self.seq = self.seq + 1;
        notify_waiters(&self.notify);
    }
}

/// Two swaps give both buffers back as they were, two frames on.
pub proof fn law_double_swap_restores(v: FrameBufferView)
    requires
        v.seq + 2 <= u64::MAX,
    ensures
        swapped(swapped(v)).front == v.front,
        swapped(swapped(v)).back == v.back,
        swapped(swapped(v)).seq == v.seq + 2,
{
}

} // verus!
