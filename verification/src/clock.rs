//! Virtual time: real elapsed time scaled by a dilation multiplier.
//!
//! Instants are whole microseconds since the Unix epoch. The multiplier is held
//! in tenths, the step by which it is adjusted, so `10` stands for real-time speed.

use vstd::prelude::*;
use crate::text::{decimal, digit_char, push_decimal};

verus! {

/// The multiplier of a fresh clock, in tenths: real-time speed.
pub const UNIT_MULTIPLIER_TENTHS: u32 = 10;

/// A real delta of `delta` microseconds scaled by a multiplier of `tenths`
/// tenths, rounded toward zero.
pub open spec fn scaled_delta(delta: int, tenths: nat) -> int {
    if delta >= 0 {
        (delta * tenths) / 10
    } else {
        -((-delta * tenths) / 10)
    }
}

/// The nearest instant that the clock can hold.
pub open spec fn clamp_micros(v: int) -> int {
    if v < i64::MIN {
        i64::MIN as int
    } else if v > i64::MAX {
        i64::MAX as int
    } else {
        v
    }
}

/// True when each instant of `ticks` is at or after the one before it, the first
/// one at or after `start`.
pub open spec fn ticks_in_order(start: int, ticks: Seq<i64>) -> bool {
    &&& forall|i: int| 0 <= i < ticks.len() ==> start <= #[trigger] ticks[i]
    &&& forall|i: int, j: int| 0 <= i <= j < ticks.len() ==> ticks[i] <= ticks[j]
}

/// The clock that the dial shows: virtual time, how fast it runs, and when it
/// was last moved on.
#[derive(Clone, Copy, Debug, PartialEq, Eq)]
pub struct VirtualClock {
    /// The displayed instant.
    pub virtual_micros: i64,
    /// The dilation multiplier, in tenths.
    pub multiplier_tenths: u32,
    /// The real instant of the latest tick.
    pub last_real_micros: i64,
}

impl VirtualClock {
    /// The clock after a tick at the real instant `real_now`.
    pub open spec fn after_tick(self, real_now: i64) -> VirtualClock {
        VirtualClock {
            virtual_micros: clamp_micros(
                self.virtual_micros + scaled_delta(
                    real_now - self.last_real_micros,
                    self.multiplier_tenths as nat,
                ),
            ) as i64,
            multiplier_tenths: self.multiplier_tenths,
            last_real_micros: real_now,
        }
    }

    /// The clock after ticks at each instant of `ticks`, in turn.
    pub open spec fn after_ticks(self, ticks: Seq<i64>) -> VirtualClock
        decreases ticks.len(),
    {
        if ticks.len() == 0 {
            self
        } else {
            self.after_tick(ticks[0]).after_ticks(ticks.drop_first())
        }
    }

    /// The clock with its multiplier one tenth higher, up to the largest value
    /// that it can hold.
    pub open spec fn sped_up(self) -> VirtualClock {
        VirtualClock {
            multiplier_tenths: if self.multiplier_tenths < u32::MAX {
                (self.multiplier_tenths + 1) as u32
            } else {
                self.multiplier_tenths
            },
            ..self
        }
    }

    /// The clock with its multiplier one tenth lower, down to zero.
    pub open spec fn slowed_down(self) -> VirtualClock {
        VirtualClock {
            multiplier_tenths: if self.multiplier_tenths > 0 {
                (self.multiplier_tenths - 1) as u32
            } else {
                0
            },
            ..self
        }
    }

    /// A clock that shows `now` and runs at real-time speed.
    pub fn new(now: i64) -> (clock: VirtualClock)
        ensures
            clock.virtual_micros == now,
            clock.last_real_micros == now,
            clock.multiplier_tenths == UNIT_MULTIPLIER_TENTHS,
    {
        VirtualClock {
            virtual_micros: now,
            multiplier_tenths: UNIT_MULTIPLIER_TENTHS,
            last_real_micros: now,
        }
    }

    /// Moves virtual time on by the real time elapsed since the latest tick,
    /// scaled by the multiplier. Virtual time stops at the ends of the range
    /// that an instant can hold.
    pub fn advance(&mut self, real_now: i64)
        ensures
            *final(self) == old(self).after_tick(real_now),
            real_now >= old(self).last_real_micros ==> final(self).virtual_micros >= old(
                self,
            ).virtual_micros,
            old(self).multiplier_tenths == 0 ==> final(self).virtual_micros == old(
                self,
            ).virtual_micros,
    {
        let forward: bool = real_now >= self.last_real_micros;
        let span: u128 = if forward {
            (real_now as i128 - self.last_real_micros as i128) as u128
        } else {
            (self.last_real_micros as i128 - real_now as i128) as u128
        };
        let tenths: u128 = self.multiplier_tenths as u128;
        assert(span * tenths <= 0x1_0000_0000_0000_0000 * 0x1_0000_0000) by (nonlinear_arith)
            requires
                span <= 0x1_0000_0000_0000_0000,
                tenths <= 0x1_0000_0000,
        ;
        let scaled: u128 = (span * tenths) / 10;
        let target: i128 = if forward {
            self.virtual_micros as i128 + scaled as i128
        } else {
            self.virtual_micros as i128 - scaled as i128
        };
        assert(forward ==> target >= self.virtual_micros);
        assert(tenths == 0 ==> span * tenths == 0) by (nonlinear_arith);
        let shown: i64 = if target < i64::MIN as i128 {
            i64::MIN
        } else if target > i64::MAX as i128 {
            i64::MAX
        } else {
            target as i64
        };
        self.virtual_micros = shown;
        self.last_real_micros = real_now;
    }

    /// Raises the multiplier by one tenth. It stays where it is once it has
    /// reached the largest value it can hold.
    pub fn increase(&mut self)
        ensures
            *final(self) == old(self).sped_up(),
    {
        if self.multiplier_tenths < u32::MAX {
            self.multiplier_tenths = self.multiplier_tenths + 1;
        }
    }

    /// Lowers the multiplier by one tenth, and never below zero.
    pub fn decrease(&mut self)
        ensures
            *final(self) == old(self).slowed_down(),
    {
        if self.multiplier_tenths > 0 {
            self.multiplier_tenths = self.multiplier_tenths - 1;
        }
    }

    /// The multiplier as shown: its whole part, a point, its tenth and an `x`.
    pub open spec fn speed_text(self) -> Seq<char> {
        decimal((self.multiplier_tenths / 10) as nat) + seq!['.'] + seq![
            digit_char((self.multiplier_tenths % 10) as int),
        ] + seq!['x']
    }

    /// The multiplier as shown in the status line.
    pub fn speed_label(&self) -> (label: String)
        ensures
            label@ == self.speed_text(),
    {
        let mut label = String::new();
        push_decimal(&mut label, self.multiplier_tenths / 10);
        proof {
            reveal_strlit(".");
            reveal_strlit("x");
        }
        label.append(".");
        push_decimal(&mut label, self.multiplier_tenths % 10);
        label.append("x");
        assert("."@ =~= seq!['.']);
        assert("x"@ =~= seq!['x']);
        assert(label@ =~= self.speed_text());
        label
    }

    /// Whether the multiplier is above real-time speed.
    pub fn is_accelerated(&self) -> (fast: bool)
        ensures
            fast == (self.multiplier_tenths > UNIT_MULTIPLIER_TENTHS),
    {
        self.multiplier_tenths > UNIT_MULTIPLIER_TENTHS
    }
}

/// One tick at or after the latest one never moves virtual time back.
pub proof fn lemma_tick_monotone(clock: VirtualClock, real_now: i64)
    requires
        real_now >= clock.last_real_micros,
    ensures
        clock.after_tick(real_now).virtual_micros >= clock.virtual_micros,
{
    let delta: int = real_now - clock.last_real_micros;
    let tenths: nat = clock.multiplier_tenths as nat;
    assert(delta * tenths >= 0) by (nonlinear_arith)
        requires
            delta >= 0,
    ;
}

/// Whatever the multiplier, virtual time never decreases over a run of ticks
/// whose real instants do not go back.
pub proof fn lemma_virtual_time_non_decreasing(clock: VirtualClock, ticks: Seq<i64>)
    requires
        ticks_in_order(clock.last_real_micros as int, ticks),
    ensures
        clock.after_ticks(ticks).virtual_micros >= clock.virtual_micros,
    decreases ticks.len(),
{
    if ticks.len() > 0 {
        lemma_tick_monotone(clock, ticks[0]);
        let rest = ticks.drop_first();
        assert forall|i: int| 0 <= i < rest.len() implies ticks[0] <= #[trigger] rest[i] by {
            assert(rest[i] == ticks[i + 1]);
        }
        assert forall|i: int, j: int| 0 <= i <= j < rest.len() implies rest[i] <= rest[j] by {
            assert(rest[i] == ticks[i + 1]);
            assert(rest[j] == ticks[j + 1]);
        }
        lemma_virtual_time_non_decreasing(clock.after_tick(ticks[0]), rest);
    }
}

/// Ticks in two runs, one after the other, lead where the two runs in one lead.
pub proof fn lemma_ticks_in_two_runs(clock: VirtualClock, first: Seq<i64>, second: Seq<i64>)
    ensures
        clock.after_ticks(first + second) == clock.after_ticks(first).after_ticks(second),
    decreases first.len(),
{
    if first.len() == 0 {
        assert(first + second =~= second);
    } else {
        assert((first + second).drop_first() =~= first.drop_first() + second);
        lemma_ticks_in_two_runs(clock.after_tick(first[0]), first.drop_first(), second);
    }
}

/// After a run of ticks the clock remembers the instant of the last one.
pub proof fn lemma_last_tick_remembered(clock: VirtualClock, ticks: Seq<i64>)
    ensures
        clock.after_ticks(ticks).last_real_micros == if ticks.len() == 0 {
            clock.last_real_micros
        } else {
            ticks.last()
        },
    decreases ticks.len(),
{
    if ticks.len() > 0 {
        lemma_last_tick_remembered(clock.after_tick(ticks[0]), ticks.drop_first());
        if ticks.len() > 1 {
            assert(ticks.drop_first().last() == ticks.last());
        }
    }
}

/// Along a run of ticks whose real instants do not go back, virtual time after
/// any number of them is at or after virtual time after fewer of them.
pub proof fn lemma_virtual_time_monotone_along(
    clock: VirtualClock,
    ticks: Seq<i64>,
    fewer: int,
    more: int,
)
    requires
        ticks_in_order(clock.last_real_micros as int, ticks),
        0 <= fewer <= more <= ticks.len(),
    ensures
        clock.after_ticks(ticks.take(fewer)).virtual_micros <= clock.after_ticks(
            ticks.take(more),
        ).virtual_micros,
{
    let head = ticks.take(fewer);
    let tail = ticks.subrange(fewer, more);
    assert(ticks.take(more) =~= head + tail);
    lemma_ticks_in_two_runs(clock, head, tail);
    lemma_last_tick_remembered(clock, head);
    let reached = clock.after_ticks(head);
    assert forall|i: int| 0 <= i < tail.len() implies reached.last_real_micros <= #[trigger] tail[i] by {
        assert(tail[i] == ticks[fewer + i]);
        if fewer > 0 {
            assert(head.last() == ticks[fewer - 1]);
        }
    }
    assert forall|i: int, j: int| 0 <= i <= j < tail.len() implies tail[i] <= tail[j] by {
        assert(tail[i] == ticks[fewer + i]);
        assert(tail[j] == ticks[fewer + j]);
    }
    lemma_virtual_time_non_decreasing(reached, tail);
}

/// With the multiplier at zero virtual time is frozen: no run of ticks, at
/// whatever real instants, moves it.
pub proof fn lemma_frozen_at_zero(clock: VirtualClock, ticks: Seq<i64>)
    requires
        clock.multiplier_tenths == 0,
    ensures
        clock.after_ticks(ticks).virtual_micros == clock.virtual_micros,
        clock.after_ticks(ticks).multiplier_tenths == 0,
    decreases ticks.len(),
{
    if ticks.len() > 0 {
        lemma_frozen_at_zero(clock.after_tick(ticks[0]), ticks.drop_first());
    }
}

} // verus!
