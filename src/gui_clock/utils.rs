use vstd::arithmetic::div_mod::lemma_fundamental_div_mod;
use vstd::prelude::*;

verus! {

/// Milliseconds in a second.
pub const MILLIS_PER_SECOND: u64 = 1000;
/// Milliseconds in a minute.
pub const MILLIS_PER_MINUTE: u64 = 60_000;
/// Milliseconds in an hour.
pub const MILLIS_PER_HOUR: u64 = 3_600_000;

/// A time of day, or a span of time, split into hours, minutes, seconds and
/// milliseconds.
#[derive(Clone, Copy, Debug)]
pub struct Time {
    pub milliseconds: u32,
    pub seconds: u32,
    pub minutes: u32,
    pub hours: u32,
}

impl Time {
    pub fn new(hour: u32, minute: u32, second: u32, millisecond: u32) -> (r: Time)
        ensures
            r.hours == hour,
            r.minutes == minute,
            r.seconds == second,
            r.milliseconds == millisecond,
    {
        Time { milliseconds: millisecond, seconds: second, minutes: minute, hours: hour }
    }
}

/// The number of milliseconds that `t` stands for.
pub open spec fn total_millis(t: Time) -> int {
    t.hours * 3_600_000 + t.minutes * 60_000 + t.seconds * 1000 + t.milliseconds
}

/// Whether each field of `t` below the hours is within its range.
pub open spec fn is_normalized(t: Time) -> bool {
    t.minutes < 60 && t.seconds < 60 && t.milliseconds < 1000
}

/// Splits a span of `diff_ms` milliseconds into hours, minutes, seconds and
/// milliseconds. The span is first reduced to its low 32 bits.
pub fn decompose_duration(diff_ms: u128) -> (r: Time)
    ensures
        is_normalized(r),
        total_millis(r) == diff_ms % 0x1_0000_0000,
{
    let diff_ms: u32 = (diff_ms % 0x1_0000_0000) as u32;
    let hours = diff_ms / (1000 * 60 * 60);
    proof {
        lemma_fundamental_div_mod(diff_ms as int, 3_600_000);
    }
    let remaining_ms_after_hours = diff_ms - hours * 60 * 60 * 1000;

    let minutes = remaining_ms_after_hours / (1000 * 60);
    proof {
        lemma_fundamental_div_mod(remaining_ms_after_hours as int, 60_000);
    }
    let remaining_ms_after_minutes = remaining_ms_after_hours - minutes * 60 * 1000;

    let seconds = remaining_ms_after_minutes / 1000;
    proof {
        lemma_fundamental_div_mod(remaining_ms_after_minutes as int, 1000);
    }
    let milliseconds = remaining_ms_after_minutes - seconds * 1000;

    Time::new(hours, minutes, seconds, milliseconds)
}

/// The position of each hand of a clock, as a whole number of milliseconds
/// on its dial: the second hand stands at `seconds / 1000` seconds, the
/// minute hand at `minutes / 60_000` minutes and the hour hand at
/// `hours / 3_600_000` hours.
#[derive(Clone, Copy, Debug)]
pub struct ClockAngles {
    pub seconds: u64,
    pub minutes: u64,
    pub hours: u64,
}

/// The second hand for `t`: its seconds plus the fraction its milliseconds
/// make.
pub open spec fn second_hand(t: Time) -> int {
    t.seconds * 1000 + t.milliseconds
}

/// The minute hand for `t`: its minutes plus a sixtieth of the second hand.
pub open spec fn minute_hand(t: Time) -> int {
    t.minutes * 60_000 + second_hand(t)
}

/// The hour hand for `t`: its hours plus a sixtieth of the minute hand.
pub open spec fn hour_hand(t: Time) -> int {
    t.hours * 3_600_000 + minute_hand(t)
}

/// The positions of the three hands for the time of day `time`.
pub fn calculate_clock_angles(time: &Time) -> (r: ClockAngles)
    ensures
        r.seconds == second_hand(*time),
        r.minutes == minute_hand(*time),
        r.hours == hour_hand(*time),
{
    let second_angle: u64 = time.seconds as u64 * MILLIS_PER_SECOND + time.milliseconds as u64;
    let minute_angle: u64 = time.minutes as u64 * MILLIS_PER_MINUTE + second_angle;
    let hour_angle: u64 = time.hours as u64 * MILLIS_PER_HOUR + minute_angle;

    ClockAngles { seconds: second_angle, minutes: minute_angle, hours: hour_angle }
}

impl ClockAngles {
    /// The hand positions of `self` and `other`, summed hand by hand.
    pub fn add(self, other: ClockAngles) -> (r: ClockAngles)
        requires
            self.seconds + other.seconds <= u64::MAX,
            self.minutes + other.minutes <= u64::MAX,
            self.hours + other.hours <= u64::MAX,
        ensures
            r.seconds == self.seconds + other.seconds,
            r.minutes == self.minutes + other.minutes,
            r.hours == self.hours + other.hours,
    {
        ClockAngles {
            seconds: self.seconds + other.seconds,
            minutes: self.minutes + other.minutes,
            hours: self.hours + other.hours,
        }
    }
}

/// For a fixed second, the second hand does not move back as the
/// milliseconds grow.
pub proof fn lemma_second_hand_monotonic(a: Time, b: Time)
    requires
        a.seconds == b.seconds,
        a.milliseconds <= b.milliseconds,
    ensures
        second_hand(a) <= second_hand(b),
{
}

/// The minute hand is the minutes plus a sixtieth of the second hand, and
/// the hour hand is the hours plus a sixtieth of the minute hand, with no
/// rounding: on a whole-millisecond scale, `minute_hand / 60_000` equals
/// `minutes + (second_hand / 1000) / 60`, and likewise for the hours.
pub proof fn lemma_hands_carry_exactly(t: Time)
    ensures
        minute_hand(t) == t.minutes * 60_000 + second_hand(t),
        hour_hand(t) == t.hours * 3_600_000 + minute_hand(t),
        hour_hand(t) == total_millis(t),
{
}

/// A time of day with its fields in range puts the second hand within one
/// turn of its dial, the minute hand within one hour and the hour hand
/// within `hours + 1` hours.
pub proof fn lemma_hands_within_dials(t: Time)
    requires
        is_normalized(t),
    ensures
        0 <= second_hand(t) < 60_000,
        0 <= minute_hand(t) < 3_600_000,
        t.hours * 3_600_000 <= hour_hand(t) < (t.hours + 1) * 3_600_000,
{
}

} // verus!
