//! Bounded histories of sensor readings.

use vstd::prelude::*;

verus! {

/// Readings the server keeps per cube.
pub const SERVER_HISTORY_LIMIT: usize = 30;
/// Readings the panel keeps per cube.
pub const PANEL_HISTORY_LIMIT: usize = 60;

/// `h` with `e` appended, and its oldest entry dropped if that makes it
/// longer than `cap`.
pub open spec fn bounded_push<T>(h: Seq<T>, e: T, cap: nat) -> Seq<T> {
    if h.len() + 1 > cap {
        h.push(e).drop_first()
    } else {
        h.push(e)
    }
}

/// Appends `entry` to `history`, dropping the oldest entry if the history
/// grows beyond `cap`.
pub fn push_bounded<T>(history: &mut Vec<T>, entry: T, cap: usize)
    ensures
        final(history)@ == bounded_push(old(history)@, entry, cap as nat),
{
    history.push(entry);
    if history.len() > cap {
        history.remove(0);
        assert(history@ =~= bounded_push(old(history)@, entry, cap as nat));
    }
}

/// A history kept with a positive bound never grows beyond it, always ends
/// with the newest entry, and holds exactly the newest entries that fit.
pub proof fn law_history_keeps_newest<T>(h: Seq<T>, e: T, cap: nat)
    requires
        0 < cap,
        h.len() <= cap,
    ensures
        bounded_push(h, e, cap).len() <= cap,
        bounded_push(h, e, cap).last() == e,
        bounded_push(h, e, cap) == h.push(e).subrange(
            h.push(e).len() - bounded_push(h, e, cap).len(),
            h.push(e).len() as int,
        ),
{
    let p = h.push(e);
    if h.len() + 1 > cap {
        assert(p.drop_first() =~= p.subrange(1, p.len() as int));
    } else {
        assert(p =~= p.subrange(0, p.len() as int));
    }
}

} // verus!
