//! The breathing field: a periodic intensity between zero and one that drives
//! the ripples. Times are microseconds, intensities millionths.

use vstd::prelude::*;
use vstd::arithmetic::div_mod::lemma_mod_multiples_vanish;

verus! {

/// The length of one breathing cycle: four seconds in, one held, eight out.
pub const CYCLE_MICROS: u32 = 13_000_000;

/// The end of the inhale.
pub const INHALE_END_MICROS: u32 = 4_000_000;

/// The end of the hold.
pub const HOLD_END_MICROS: u32 = 5_000_000;

/// Full intensity.
pub const FULL_SCALE: u32 = 1_000_000;

/// Where in its cycle a ripple with phase offset `offset_micros` stands at the
/// virtual instant `virtual_micros`.
pub open spec fn cycle_position(virtual_micros: int, offset_micros: int) -> int {
    (virtual_micros + offset_micros) % 13_000_000
}

/// The intensity at position `t` of the cycle, in millionths, rounded down
/// while rising and up while falling.
pub open spec fn scale_at(t: int) -> int {
    if t < 4_000_000 {
        t / 4
    } else if t < 5_000_000 {
        1_000_000
    } else {
        1_000_000 - (t - 5_000_000) / 8
    }
}

/// The breathing intensity of a ripple at a virtual instant.
pub open spec fn breathing_scale_spec(virtual_micros: int, offset_micros: int) -> int {
    scale_at(cycle_position(virtual_micros, offset_micros))
}

/// One of the staggered ripples.
#[derive(Clone, Copy, Debug, PartialEq, Eq)]
pub struct Emanation {
    /// By how much this ripple runs ahead in the cycle.
    pub phase_offset_micros: i64,
}

/// The three ripples, a third of a cycle apart.
pub fn emanations() -> (ripples: [Emanation; 3])
    ensures
        ripples[0].phase_offset_micros == 0,
        ripples[1].phase_offset_micros == 4_330_000,
        ripples[2].phase_offset_micros == 8_660_000,
{
    [
        Emanation { phase_offset_micros: 0 },
        Emanation { phase_offset_micros: 4_330_000 },
        Emanation { phase_offset_micros: 8_660_000 },
    ]
}

/// The position in the cycle, from zero up to the cycle's length.
pub fn breathing_phase(virtual_micros: i64, offset_micros: i64) -> (t: u32)
    ensures
        t == cycle_position(virtual_micros as int, offset_micros as int),
        t < CYCLE_MICROS,
{
    let sum: i128 = virtual_micros as i128 + offset_micros as i128;
    let lift: i128 = 13_000_000 * 1_500_000_000_000;
    let lifted: u128 = (sum + lift) as u128;
    proof {
        lemma_mod_multiples_vanish(1_500_000_000_000, sum as int, 13_000_000);
    }
    (lifted % 13_000_000) as u32
}

/// The breathing intensity in millionths: it rises from nothing to full over
/// the inhale, stays full through the hold, and falls back over the exhale.
pub fn breathing_scale(virtual_micros: i64, offset_micros: i64) -> (scale: u32)
    ensures
        scale == breathing_scale_spec(virtual_micros as int, offset_micros as int),
        scale <= FULL_SCALE,
{
    let t: u32 = breathing_phase(virtual_micros, offset_micros);
    if t < INHALE_END_MICROS {
        t / 4
    } else if t < HOLD_END_MICROS {
        FULL_SCALE
    } else {
        FULL_SCALE - (t - HOLD_END_MICROS) / 8
    }
}

/// The field has period thirteen seconds.
pub proof fn lemma_scale_periodic(virtual_micros: int, offset_micros: int)
    ensures
        breathing_scale_spec(virtual_micros + 13_000_000, offset_micros) == breathing_scale_spec(
            virtual_micros,
            offset_micros,
        ),
{
    lemma_mod_multiples_vanish(1, virtual_micros + offset_micros, 13_000_000);
}

/// The field stays between nothing and full.
pub proof fn lemma_scale_in_range(virtual_micros: int, offset_micros: int)
    ensures
        0 <= breathing_scale_spec(virtual_micros, offset_micros) <= 1_000_000,
{
}

/// The field has no jump: from one microsecond to the next it changes by at
/// most one millionth, at the ends of the phases and where the cycle starts
/// again too.
pub proof fn lemma_scale_continuous(virtual_micros: int, offset_micros: int)
    ensures
        -1 <= breathing_scale_spec(virtual_micros + 1, offset_micros) - breathing_scale_spec(
            virtual_micros,
            offset_micros,
        ) <= 1,
{
    let x: int = virtual_micros + offset_micros;
    let t: int = x % 13_000_000;
    let u: int = (x + 1) % 13_000_000;
    assert(u == if t == 12_999_999 { 0int } else { t + 1 });
}

} // verus!
