//! The cadence of the loop: how long to wait for input, and when the clock
//! ticks. Times are microseconds of real time.

use vstd::prelude::*;

verus! {

/// The length of one cadence window.
pub const CADENCE_MICROS: u64 = 16_000;

/// What is left of the window after `elapsed` microseconds.
pub open spec fn remaining_budget(elapsed: int) -> int {
    if elapsed >= 16_000 {
        0
    } else {
        16_000 - elapsed
    }
}

/// Whether the window has run out.
pub open spec fn window_elapsed(elapsed: int) -> bool {
    elapsed >= 16_000
}

/// How long the loop may wait for input: what is left of the window, and
/// nothing once the window has run out.
pub fn poll_budget(elapsed_micros: u64) -> (budget: u64)
    ensures
        budget == remaining_budget(elapsed_micros as int),
        window_elapsed(elapsed_micros + budget),
{
    if elapsed_micros >= CADENCE_MICROS {
        0
    } else {
        CADENCE_MICROS - elapsed_micros
    }
}

/// Whether the clock ticks now: it does once the window has run out.
pub fn tick_due(elapsed_micros: u64) -> (due: bool)
    ensures
        due == window_elapsed(elapsed_micros as int),
{
    elapsed_micros >= CADENCE_MICROS
}

/// A wait never runs past the window, and after a full wait the clock ticks.
pub proof fn lemma_wait_ends_window(elapsed: int)
    requires
        elapsed >= 0,
    ensures
        0 <= remaining_budget(elapsed) <= 16_000,
        elapsed < 16_000 ==> elapsed + remaining_budget(elapsed) == 16_000,
        window_elapsed(elapsed + remaining_budget(elapsed)),
{
}

} // verus!
