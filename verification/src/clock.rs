//! Times of day as the panel shows them.

use vstd::prelude::*;
use crate::text::{push_char, push_two_digits, two_digits};

verus! {

/// What the clock hook hands back; the clock draws itself into the page.
#[derive(Clone, Copy, Debug, PartialEq, Eq, Structural)]
pub struct UseClockHandle;

/// `h:m:s`, each part as two zero-padded digits.
pub open spec fn hms(h: int, m: int, s: int) -> Seq<char> {
    two_digits(h) + seq![':'] + two_digits(m) + seq![':'] + two_digits(s)
}

fn hms_string(h: u32, m: u32, s: u32) -> (r: String)
    requires
        h < 100,
        m < 100,
        s < 100,
    ensures
        r@ == hms(h as int, m as int, s as int),
{
    let mut out = String::new();
    push_two_digits(&mut out, h);
    push_char(&mut out, ':');
    push_two_digits(&mut out, m);
    push_char(&mut out, ':');
    push_two_digits(&mut out, s);
    assert(out@ =~= hms(h as int, m as int, s as int));
    out
}

/// The time of day, in UTC, `secs` seconds after the Unix epoch.
pub fn clock_text(secs: u64) -> (r: String)
    ensures
        r@ == hms(((secs / 3600) % 24) as int, ((secs / 60) % 60) as int, (secs % 60) as int),
{
    let h = ((secs / 3600) % 24) as u32;
    let m = ((secs / 60) % 60) as u32;
    let s = (secs % 60) as u32;
    hms_string(h, m, s)
}

/// The time of day of a sensor timestamp in milliseconds, or "--" for a
/// timestamp that is not positive.
pub fn format_timestamp(ts: i64) -> (r: String)
    ensures
        ts <= 0 ==> r@ == "--"@,
        ts > 0 ==> r@ == hms((ts / 1000 / 60 / 60) % 24, (ts / 1000 / 60) % 60, (ts / 1000) % 60),
{
    if ts <= 0 {
        return String::from_str("--");
    }
    let secs = ts / 1000;
    let mins = secs / 60;
    let hours = mins / 60;
    hms_string((hours % 24) as u32, (mins % 60) as u32, (secs % 60) as u32)
}

/// Times the clock waits, in milliseconds: between redraws, and between
/// looks for its display element while the page is still being built.
pub const CLOCK_REDRAW_MS: u32 = 1000;
pub const CLOCK_RETRY_MS: u32 = 500;
/// How often the clock looks for its display element before giving up.
pub const CLOCK_MAX_RETRIES: u32 = 20;

/// What the clock does on a tick.
#[derive(Clone, Copy, Debug, PartialEq, Eq, Structural)]
pub enum ClockStep {
    /// Draw the time, then tick again after `after_ms` with no retries used.
    Show { after_ms: u32 },
    /// The display is not there yet: tick again after `after_ms`, having used
    /// `retries` retries.
    Retry { after_ms: u32, retries: u32 },
    /// The display never appeared: stop.
    Stop,
}

/// The clock's next step, given whether its display element was found and
/// how many retries it has used.
pub fn next_clock_step(display_found: bool, retries: u32) -> (r: ClockStep)
    ensures
        display_found ==> r == (ClockStep::Show { after_ms: CLOCK_REDRAW_MS }),
        !display_found && retries < CLOCK_MAX_RETRIES ==> r == (ClockStep::Retry {
            after_ms: CLOCK_RETRY_MS,
            retries: (retries + 1) as u32,
        }),
        !display_found && retries >= CLOCK_MAX_RETRIES ==> r == ClockStep::Stop,
{
    if display_found {
        ClockStep::Show { after_ms: CLOCK_REDRAW_MS }
    } else if retries < CLOCK_MAX_RETRIES {
        ClockStep::Retry { after_ms: CLOCK_RETRY_MS, retries: retries + 1 }
    } else {
        ClockStep::Stop
    }
}

/// A sensor timestamp reads as the clock does at the same second.
pub proof fn law_timestamp_matches_clock(ms: i64)
    requires
        ms > 0,
    ensures
        hms((ms / 1000 / 60 / 60) % 24, (ms / 1000 / 60) % 60, (ms / 1000) % 60) == hms(
            ((ms / 1000) / 3600) % 24,
            ((ms / 1000) / 60) % 60,
            (ms / 1000) % 60,
        ),
{
    let secs = ms / 1000;
    assert(secs / 60 / 60 == secs / 3600) by (nonlinear_arith)
        requires
            secs >= 0,
    ;
}

} // verus!
