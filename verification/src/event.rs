//! The decisions of a timed wait on the named frame event.

use vstd::prelude::*;

verus! {

/// Name of the event the renderer signals after each published frame.
pub const FRAME_EVENT_NAME: &'static str = "Local\\DemoFrameReady";

/// Nanoseconds per second.
pub const NANOS_PER_SEC: i64 = 1_000_000_000;

/// Whether an absolute deadline `timeout_ms` milliseconds after
/// (`now_sec`, `now_nsec`) can be computed without overflow.
pub open spec fn deadline_fits(now_sec: i64, now_nsec: i64, timeout_ms: u32) -> bool {
    &&& now_nsec + (timeout_ms % 1000) * 1_000_000 <= i64::MAX
    &&& now_sec + timeout_ms / 1000 + 1 <= i64::MAX
}

/// The deadline `timeout_ms` milliseconds after (`now_sec`, `now_nsec`), as
/// seconds and nanoseconds; nanoseconds that reach a full second are carried
/// once into the seconds.
pub open spec fn deadline_after(now_sec: i64, now_nsec: i64, timeout_ms: u32) -> (int, int) {
    let sec = now_sec + timeout_ms / 1000;
    let nsec = now_nsec + (timeout_ms % 1000) * 1_000_000;
    if nsec >= NANOS_PER_SEC {
        (sec + 1, nsec - NANOS_PER_SEC)
    } else {
        (sec, nsec)
    }
}

/// The absolute deadline, as seconds and nanoseconds, `timeout_ms`
/// milliseconds after (`now_sec`, `now_nsec`); nanoseconds that reach a full
/// second are carried once into the seconds.
pub fn wait_deadline(now_sec: i64, now_nsec: i64, timeout_ms: u32) -> (r: (i64, i64))
    requires
        deadline_fits(now_sec, now_nsec, timeout_ms),
    ensures
        r.0 == deadline_after(now_sec, now_nsec, timeout_ms).0,
        r.1 == deadline_after(now_sec, now_nsec, timeout_ms).1,
{
    let add_sec = (timeout_ms / 1000) as i64;
    let add_nsec = ((timeout_ms % 1000) as i64) * 1_000_000;
    let mut sec = now_sec + add_sec;
    let mut nsec = now_nsec + add_nsec;
    if nsec >= NANOS_PER_SEC {
        sec = sec + 1;
        nsec = nsec - NANOS_PER_SEC;
    }
    (sec, nsec)
}

/// A deadline computed from a normalized time is normalized again and lies
/// exactly `timeout_ms` milliseconds later.
pub proof fn law_deadline_is_exact(now_sec: i64, now_nsec: i64, timeout_ms: u32)
    requires
        0 <= now_nsec < NANOS_PER_SEC,
    ensures
        ({
            let (sec, nsec) = deadline_after(now_sec, now_nsec, timeout_ms);
            &&& 0 <= nsec < NANOS_PER_SEC
            &&& sec * NANOS_PER_SEC + nsec == now_sec * NANOS_PER_SEC + now_nsec + timeout_ms
                * 1_000_000
        }),
{
    assert(timeout_ms * 1_000_000 == (timeout_ms / 1000) * NANOS_PER_SEC + (timeout_ms % 1000)
        * 1_000_000) by (nonlinear_arith);
}

/// Why a timed wait returned without the event being signalled.
#[derive(Clone, Copy, Debug, PartialEq, Eq, Structural)]
pub enum WaitError {
    /// The deadline passed.
    TimedOut,
    /// A signal interrupted the wait.
    Interrupted,
    /// Any other failure.
    Other,
}

/// What a waiter does after one attempt.
#[derive(Clone, Copy, Debug, PartialEq, Eq, Structural)]
pub enum WaitStep {
    /// Stop waiting; whether the event was signalled.
    Finish(bool),
    /// Wait again for the same deadline.
    Retry,
}

/// The next step after one attempt that returned `rc`, failing with `error`
/// when `rc` is not 0: a signalled event ends the wait with `true`, an
/// interruption retries, a timeout or any other failure ends it with `false`.
pub fn wait_step(rc: i32, error: WaitError) -> (r: WaitStep)
    ensures
        rc == 0 ==> r == WaitStep::Finish(true),
        rc != 0 && error == WaitError::Interrupted ==> r == WaitStep::Retry,
        rc != 0 && error != WaitError::Interrupted ==> r == WaitStep::Finish(false),
{
    if rc == 0 {
        return WaitStep::Finish(true);
    }
    match error {
        WaitError::TimedOut => WaitStep::Finish(false),
        WaitError::Interrupted => WaitStep::Retry,
        WaitError::Other => WaitStep::Finish(false),
    }
}

} // verus!
