//! Frame pacing for the render loop.
use vstd::prelude::*;

verus! {

/// How long the render loop sleeps after an idle iteration, in milliseconds.
pub const INPUT_POLL_DELAY_MS: u32 = 30;

/// The number of idle iterations after which a redraw is forced, for a
/// target refresh rate of `fps` frames per second.
pub open spec fn idle_threshold(fps: u32) -> int {
    let repeats = 1000int / (INPUT_POLL_DELAY_MS as int) / (fps as int);
    if repeats < 1 { 1 } else { repeats }
}

/// The idle-iteration threshold for an optional target rate: `None` when no
/// rate is set, in which case idle iterations never force a redraw.
pub fn max_idle_iterations(fps: Option<u32>) -> (r: Option<u32>)
    requires
        fps matches Some(f) ==> f > 0,
    ensures
        match fps {
            Some(f) => r == Some(idle_threshold(f) as u32) && r->0 >= 1,
            None => r is None,
        },
{
    match fps {
        Some(f) => {
            let repeats = 1000 / INPUT_POLL_DELAY_MS / f;
            if repeats < 1 {
                Some(1)
            } else {
                Some(repeats)
            }
        },
        None => None,
    }
}

/// Whether an iteration must redraw: it was not boring, or the idle counter
/// has reached the threshold that `fps` sets.
pub open spec fn redraw_due(fps: Option<u32>, boring_frames: u32, received_something: bool) -> bool {
    received_something || (fps matches Some(f) && boring_frames >= idle_threshold(f))
}

/// The idle counter after one iteration: reset by a redraw, otherwise one
/// more (saturating at the largest `u32`).
pub open spec fn next_idle_count(fps: Option<u32>, boring_frames: u32, received_something: bool) -> u32 {
    if redraw_due(fps, boring_frames, received_something) {
        0
    } else if boring_frames < u32::MAX {
        (boring_frames + 1) as u32
    } else {
        boring_frames
    }
}

/// The idle counter after `k` boring iterations that follow a redraw.
pub open spec fn idle_count_after(fps: Option<u32>, k: nat) -> u32
    decreases k,
{
    if k == 0 {
        0
    } else {
        next_idle_count(fps, idle_count_after(fps, (k - 1) as nat), false)
    }
}

/// After a redraw with a target rate set, the first `idle_threshold`
/// boring iterations only count up, and the next one is forced to redraw.
pub proof fn lemma_idle_redraw_cadence(f: u32, k: nat)
    requires
        f > 0,
        k <= idle_threshold(f),
    ensures
        idle_count_after(Some(f), k) == k,
        redraw_due(Some(f), idle_count_after(Some(f), k), false) <==> k == idle_threshold(f),
    decreases k,
{
    assert(idle_threshold(f) <= 1000) by (nonlinear_arith)
        requires
            f > 0,
            idle_threshold(f) == (if 1000int / 30 / (f as int) < 1 { 1 } else { 1000int / 30 / (f as int) }),
    ;
    if k > 0 {
        lemma_idle_redraw_cadence(f, (k - 1) as nat);
    }
}

} // verus!
