//! The exact geometry of the overlay: where the hands, the minute ticks and
//! the hour markers stand.
//!
//! A hand's sweep is the angle it has turned clockwise from twelve o'clock.
//! Its unit is the angle that the hour hand turns in one nanosecond, so a full
//! turn is twelve hours of nanoseconds and every sweep is a whole number.

use vstd::prelude::*;

verus! {

/// A full turn, in sweep units.
pub const FULL_TURN: u64 = 43_200_000_000_000;

/// The sweep units in one degree.
pub const UNITS_PER_DEGREE: u64 = 120_000_000_000;

/// The time of day of a virtual instant, as the calendar gives it.
#[derive(Clone, Copy, Debug, PartialEq, Eq)]
pub struct TimeOfDay {
    pub hour: u32,
    pub minute: u32,
    pub second: u32,
    pub nanosecond: u32,
}

/// How a minute tick is drawn.
#[derive(Clone, Copy, Debug, PartialEq, Eq)]
pub enum TickKind {
    /// The tick of the highlighted slot, which also gets a marker.
    Selected,
    /// Every fifth tick.
    Hour,
    /// Any other tick.
    Plain,
}

/// The sweeps of the three hands.
#[derive(Clone, Copy, Debug, PartialEq, Eq)]
pub struct Hands {
    pub second_sweep: u64,
    pub minute_sweep: u64,
    pub hour_sweep: u64,
}

impl TimeOfDay {
    /// The fields are in their ranges. During a leap second the nanoseconds
    /// run on past one second.
    pub open spec fn wf(&self) -> bool {
        &&& self.hour < 24
        &&& self.minute < 60
        &&& self.second < 60
        &&& self.nanosecond < 2_000_000_000
    }

    /// The nanoseconds since the minute began.
    pub open spec fn nanos_of_minute(&self) -> int {
        self.second * 1_000_000_000 + self.nanosecond
    }

    /// The whole seconds since midnight.
    pub open spec fn spec_seconds_since_midnight(&self) -> int {
        self.hour * 3600 + self.minute * 60 + self.second
    }

    /// The second hand turns six degrees a second.
    pub open spec fn second_sweep(&self) -> int {
        self.nanos_of_minute() * 720
    }

    /// The minute hand turns six degrees a minute, and moves on with the
    /// seconds.
    pub open spec fn minute_sweep(&self) -> int {
        self.minute * 720_000_000_000 + self.nanos_of_minute() * 12
    }

    /// The hour hand turns thirty degrees an hour, counted from the last
    /// twelve, and moves on with the minutes.
    pub open spec fn hour_sweep(&self) -> int {
        (self.hour % 12) * 3_600_000_000_000 + self.minute * 60_000_000_000
            + self.nanos_of_minute()
    }

    /// The whole seconds since midnight.
    pub fn seconds_since_midnight(&self) -> (seconds: u32)
        requires
            self.wf(),
        ensures
            seconds == self.spec_seconds_since_midnight(),
            seconds < 86_400,
    {
        self.hour * 3600 + self.minute * 60 + self.second
    }

    /// Where the three hands stand.
    pub fn hands(&self) -> (hands: Hands)
        requires
            self.wf(),
        ensures
            hands.second_sweep == self.second_sweep(),
            hands.minute_sweep == self.minute_sweep(),
            hands.hour_sweep == self.hour_sweep(),
    {
        let nanos: u64 = self.second as u64 * 1_000_000_000 + self.nanosecond as u64;
        Hands {
            second_sweep: nanos * 720,
            minute_sweep: self.minute as u64 * 720_000_000_000 + nanos * 12,
            hour_sweep: (self.hour % 12) as u64 * 3_600_000_000_000 + self.minute as u64
                * 60_000_000_000 + nanos,
        }
    }
}

/// How far the petal ring has turned at a virtual instant, in microradians:
/// a tenth of a radian clockwise for each second since the epoch, rounded
/// toward zero. Both layers turn their petals by this.
pub open spec fn ring_rotation_spec(virtual_micros: int) -> int {
    if virtual_micros >= 0 {
        -(virtual_micros / 10)
    } else {
        (-virtual_micros) / 10
    }
}

/// How far the petal ring has turned at a virtual instant, in microradians.
pub fn ring_rotation(virtual_micros: i64) -> (microradians: i64)
    ensures
        microradians == ring_rotation_spec(virtual_micros as int),
{
    if virtual_micros >= 0 {
        -(virtual_micros / 10)
    } else {
        ((-(virtual_micros as i128)) / 10) as i64
    }
}

/// The angle of petal `petal` of the overlay before the ring's rotation is
/// added, in degrees counter-clockwise from three o'clock.
pub fn petal_angle(petal: u32) -> (degrees: i64)
    ensures
        degrees == 90 - petal * 30,
{
    90 - (petal as i64) * 30
}

/// The radius of a ripple's circle on the overlay, in thousandths of a unit of
/// the dial, whose radius is a hundred units: one and a half times the dial's
/// radius at full breath.
pub fn ripple_circle_radius(scale: u32) -> (radius_milli: u32)
    ensures
        radius_milli == scale * 150 / 1000,
{
    (scale as u64 * 150 / 1000) as u32
}

/// The angle of minute tick `slot`, in degrees counter-clockwise from three
/// o'clock.
pub fn tick_angle(slot: u32) -> (degrees: i64)
    ensures
        degrees == 90 - slot * 6,
{
    90 - (slot as i64) * 6
}

/// The angle of hour marker `marker`, in degrees counter-clockwise from three
/// o'clock.
pub fn marker_angle(marker: u32) -> (degrees: i64)
    ensures
        degrees == 90 - marker * 30,
{
    90 - (marker as i64) * 30
}

/// How tick `slot` is drawn: the highlight comes before the hour.
pub fn tick_kind(slot: u32, selected: Option<u32>) -> (kind: TickKind)
    ensures
        kind == if selected == Some(slot) {
            TickKind::Selected
        } else if slot % 5 == 0 {
            TickKind::Hour
        } else {
            TickKind::Plain
        },
{
    let highlighted: bool = match selected {
        Some(m) => m == slot,
        None => false,
    };
    if highlighted {
        TickKind::Selected
    } else if slot % 5 == 0 {
        TickKind::Hour
    } else {
        TickKind::Plain
    }
}

/// Whether hour marker `marker` is drawn as a cross: every third one is.
pub fn marker_is_cross(marker: u32) -> (cross: bool)
    ensures
        cross == (marker % 3 == 0),
{
    marker % 3 == 0
}

/// The hands are geared to each other: the minute hand turns twelve times as
/// fast as the hour hand and the second hand sixty times as fast as the minute
/// hand, each from where its hour or minute began.
pub proof fn lemma_hands_geared(time: TimeOfDay)
    ensures
        time.minute_sweep() == 12 * (time.hour_sweep() - (time.hour % 12) * 3_600_000_000_000),
        time.second_sweep() == 60 * (time.minute_sweep() - time.minute * 720_000_000_000),
{
}

/// Outside a leap second no hand has turned a full turn.
pub proof fn lemma_hands_within_turn(time: TimeOfDay)
    requires
        time.wf(),
        time.nanosecond < 1_000_000_000,
    ensures
        0 <= time.second_sweep() < 43_200_000_000_000,
        0 <= time.minute_sweep() < 43_200_000_000_000,
        0 <= time.hour_sweep() < 43_200_000_000_000,
{
}

} // verus!
