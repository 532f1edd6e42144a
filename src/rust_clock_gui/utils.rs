use chrono::{Datelike, Timelike};
use vstd::arithmetic::div_mod::{
    lemma_div_denominator, lemma_div_pos_is_pos, lemma_fundamental_div_mod,
    lemma_fundamental_div_mod_converse, lemma_mod_bound,
};
use vstd::prelude::*;

verus! {

/// A calendar date with a time of day, to the millisecond.
#[derive(Clone, Copy, Debug)]
pub struct Time {
    pub year: i32,
    pub month: u32,
    pub day: u32,
    pub hours: u32,
    pub minutes: u32,
    pub seconds: u32,
    pub milliseconds: u32,
}

impl Time {
    pub fn new(
        year: i32,
        month: u32,
        day: u32,
        hour: u32,
        minute: u32,
        second: u32,
        millisecond: u32,
    ) -> (r: Time)
        ensures
            r == (Time {
                year,
                month,
                day,
                hours: hour,
                minutes: minute,
                seconds: second,
                milliseconds: millisecond,
            }),
    {
        Time {
            year,
            month,
            day,
            hours: hour,
            minutes: minute,
            seconds: second,
            milliseconds: millisecond,
        }
    }
}

/// Quotient of `a` by `b > 0`, rounded toward zero as Rust's `/` does.
#[verifier::opaque]
pub open spec fn trunc_div(a: int, b: int) -> int {
    if a >= 0 {
        a / b
    } else {
        -((-a) / b)
    }
}

/// Remainder of `a` by `b > 0`, with the sign of `a` as Rust's `%` gives it.
pub open spec fn trunc_rem(a: int, b: int) -> int {
    a - b * trunc_div(a, b)
}

/// `x` reduced to its low 32 bits, read as unsigned.
fn low_u32(x: i64) -> (r: u32)
    ensures
        r == (x as int) % 0x1_0000_0000,
{
    let m = x % 0x1_0000_0000;
    let m = if m < 0 {
        m + 0x1_0000_0000
    } else {
        m
    };
    proof {
        lemma_fundamental_div_mod_converse(
            x as int,
            0x1_0000_0000,
            (x - m) / 0x1_0000_0000,
            m as int,
        );
    }
    m as u32
}

/// `x` read as an unsigned 64-bit integer in two's complement.
fn low_u64(x: i64) -> (r: u64)
    ensures
        r == (x as int) % 0x1_0000_0000_0000_0000int,
{
    if x >= 0 {
        proof {
            lemma_fundamental_div_mod_converse(x as int, 0x1_0000_0000_0000_0000int, 0, x as int);
        }
        x as u64
    } else {
        proof {
            lemma_fundamental_div_mod_converse(
                x as int,
                0x1_0000_0000_0000_0000int,
                -1,
                x + 0x1_0000_0000_0000_0000int,
            );
        }
        u64::MAX - ((-(x + 1)) as u64)
    }
}

/// The date and time that a wall clock showing `start` shows `ms`
/// milliseconds later (earlier, for a negative `ms`), in the proleptic
/// Gregorian calendar; `None` where `start` is no valid date and time or the
/// result falls outside the calendar's range.
pub uninterp spec fn wall_clock_shift(start: Time, ms: int) -> Option<Time>;

/// Relies on chrono's `NaiveDate::from_ymd_opt`, `NaiveDate::and_hms_milli_opt`
/// `NaiveDateTime::checked_add_signed` and `DateTime::timestamp_subsec_millis`: calendar arithmetic on a date and
/// time of day, with `None` for an invalid start or an overflow.
#[verifier::external_body]
fn shift_wall_clock(start: &Time, ms: i64) -> (r: Option<Time>)
    requires
        ms > i64::MIN,
    ensures
        r == wall_clock_shift(*start, ms as int),
{
    let date = chrono::NaiveDate::from_ymd_opt(start.year, start.month, start.day)?;
    let from = date.and_hms_milli_opt(start.hours, start.minutes, start.seconds, start.milliseconds)?;
    let to = from.checked_add_signed(chrono::TimeDelta::milliseconds(ms))?;
    let millis = to.and_utc().timestamp_subsec_millis();
    Some(Time::new(to.year(), to.month(), to.day(), to.hour(), to.minute(), to.second(), millis))
}

/// What `decompose_duration` makes of the shifted date and time `shifted`
/// and the span of `diff` nanoseconds.
pub open spec fn decomposed(shifted: Time, diff: int, to_seconds_only: bool) -> Time {
    if to_seconds_only {
        Time {
            hours: 0,
            minutes: 0,
            seconds: (trunc_div(diff, 1_000_000_000) % 0x1_0000_0000) as u32,
            milliseconds: ((trunc_div(diff, 1_000_000) % 0x1_0000_0000_0000_0000int) % 1000) as u32,
            ..shifted
        }
    } else {
        shifted
    }
}

/// Builds the decomposition of a span of `diff` nanoseconds from the date
/// and time `shifted` that the span leads to.
///
/// With `to_seconds_only` the date comes from `shifted` and the span is given
/// as whole seconds (reduced to 32 bits) and milliseconds, with no hours or
/// minutes; otherwise the result is `shifted` itself.
pub fn time_from_shifted(shifted: &Time, diff: i64, to_seconds_only: bool) -> (r: Time)
    ensures
        r == decomposed(*shifted, diff as int, to_seconds_only),
{
    proof {
        reveal(trunc_div);
    }
    if to_seconds_only {
        let diff_ms = low_u64(diff / 1_000_000);
        let milliseconds = (diff_ms % 1000) as u32;
        let total_seconds = low_u32(diff / 1_000_000_000);
        Time::new(shifted.year, shifted.month, shifted.day, 0, 0, total_seconds, milliseconds)
    } else {
        *shifted
    }
}

/// Decomposes a span of `diff` nanoseconds that started at `now`.
///
/// The date part of the result is the date that a wall clock showing `now`
/// shows once the span has passed. `None` where `now` is no valid date and
/// time or the end of the span lies outside the calendar's range.
pub fn decompose_duration(diff: i64, now: &Time, to_seconds_only: bool) -> (r: Option<Time>)
    ensures
        r == match wall_clock_shift(*now, trunc_div(diff as int, 1_000_000)) {
            Some(shifted) => Some(decomposed(shifted, diff as int, to_seconds_only)),
            None => None,
        },
{
    let diff_ms = diff / 1_000_000;
    assert(diff_ms == trunc_div(diff as int, 1_000_000)) by {
        reveal(trunc_div);
    }
    match shift_wall_clock(now, diff_ms) {
        Some(final_datetime) => Some(time_from_shifted(&final_datetime, diff, to_seconds_only)),
        None => None,
    }
}

/// The position of each hand of a clock, as a whole number of milliseconds
/// on its dial: the second hand stands at `seconds / 1000` seconds, the
/// minute hand at `minutes / 60_000` minutes and the hour hand at
/// `hours / 3_600_000` hours. The hours are not reduced to a day.
#[derive(Clone, Copy, Debug)]
pub struct HandAngles {
    pub seconds: i64,
    pub minutes: i64,
    pub hours: i64,
}

impl HandAngles {
    /// The hand positions of `self` and `other`, summed hand by hand.
    pub fn add(self, other: HandAngles) -> (r: HandAngles)
        requires
            i64::MIN <= self.seconds + other.seconds <= i64::MAX,
            i64::MIN <= self.minutes + other.minutes <= i64::MAX,
            i64::MIN <= self.hours + other.hours <= i64::MAX,
        ensures
            r.seconds == self.seconds + other.seconds,
            r.minutes == self.minutes + other.minutes,
            r.hours == self.hours + other.hours,
    {
        HandAngles {
            seconds: self.seconds + other.seconds,
            minutes: self.minutes + other.minutes,
            hours: self.hours + other.hours,
        }
    }
}

/// The time of day of `t` in milliseconds since midnight (more, where its
/// fields exceed their ranges).
pub open spec fn day_millis(t: Time) -> int {
    t.hours * 3_600_000 + t.minutes * 60_000 + t.seconds * 1000 + t.milliseconds
}

/// The hand positions, as (seconds, minutes, hours), for a clock started at
/// the time of day of `t` after `e` milliseconds.
///
/// The elapsed time is split into milliseconds, seconds, minutes and hours
/// with Rust's rounding toward zero, each part is added to the matching
/// field of `t`, and what overflows a field is carried to the next.
pub open spec fn hands_after(t: Time, e: int) -> (int, int, int) {
    let total_millis = t.milliseconds + trunc_rem(e, 1000);
    let carry_seconds = trunc_div(total_millis, 1000);
    let millis = trunc_rem(total_millis, 1000);
    let total_seconds = t.seconds + trunc_rem(trunc_div(e, 1000), 60) + carry_seconds;
    let carry_minutes = trunc_div(total_seconds, 60);
    let seconds = trunc_rem(total_seconds, 60);
    let total_minutes = t.minutes + trunc_rem(trunc_div(e, 60_000), 60) + carry_minutes;
    let carry_hours = trunc_div(total_minutes, 60);
    let minutes = trunc_rem(total_minutes, 60);
    let hours = t.hours + trunc_div(e, 3_600_000) + carry_hours;
    let second_angle = seconds * 1000 + millis;
    let minute_angle = minutes * 60_000 + second_angle;
    (second_angle, minute_angle, hours * 3_600_000 + minute_angle)
}

proof fn lemma_trunc_rem_bounds(a: int, b: int)
    requires
        b > 0,
    ensures
        a == b * trunc_div(a, b) + trunc_rem(a, b),
        a >= 0 ==> 0 <= trunc_rem(a, b) < b && trunc_div(a, b) >= 0,
        a < 0 ==> -b < trunc_rem(a, b) <= 0 && trunc_div(a, b) <= 0,
        -b < trunc_rem(a, b) < b,
{
    reveal(trunc_div);
    if a >= 0 {
        lemma_fundamental_div_mod(a, b);
        lemma_mod_bound(a, b);
        lemma_div_pos_is_pos(a, b);
    } else {
        lemma_fundamental_div_mod(-a, b);
        lemma_mod_bound(-a, b);
        lemma_div_pos_is_pos(-a, b);
        let q = (-a) / b;
        assert(b * (-q) == -(b * q)) by (nonlinear_arith);
    }
}

proof fn lemma_trunc_div_nested(a: int, c: int, d: int)
    requires
        c > 0,
        d > 0,
    ensures
        trunc_div(trunc_div(a, c), d) == trunc_div(a, c * d),
{
    reveal(trunc_div);
    if a >= 0 {
        lemma_div_denominator(a, c, d);
        lemma_trunc_rem_bounds(a, c);
    } else {
        lemma_div_denominator(-a, c, d);
        lemma_trunc_rem_bounds(-a, c);
        let q = (-a) / c;
        if q == 0 {
            assert(0int / d == 0);
        }
    }
}

/// The hour hand moves exactly with the elapsed time: it stands at the start
/// time of day plus `e` milliseconds, whatever the sign of `e`.
pub proof fn lemma_hour_hand_tracks_elapsed(t: Time, e: int)
    ensures
        hands_after(t, e).2 == day_millis(t) + e,
{
    lemma_trunc_rem_bounds(e, 1000);
    lemma_trunc_rem_bounds(trunc_div(e, 1000), 60);
    lemma_trunc_rem_bounds(trunc_div(e, 60_000), 60);
    lemma_trunc_div_nested(e, 1000, 60);
    lemma_trunc_div_nested(e, 60_000, 60);
    let total_millis = t.milliseconds + trunc_rem(e, 1000);
    lemma_trunc_rem_bounds(total_millis, 1000);
    let total_seconds = t.seconds + trunc_rem(trunc_div(e, 1000), 60) + trunc_div(total_millis, 1000);
    lemma_trunc_rem_bounds(total_seconds, 60);
    let total_minutes = t.minutes + trunc_rem(trunc_div(e, 60_000), 60) + trunc_div(total_seconds, 60);
    lemma_trunc_rem_bounds(total_minutes, 60);
}

/// For a time of day with its fields in range and no negative elapsed time,
/// the second hand is the elapsed position reduced to a minute and the minute
/// hand the elapsed position reduced to an hour: each hand wraps around its
/// dial as time goes on.
pub proof fn lemma_hands_wrap_on_dials(t: Time, e: int)
    requires
        t.minutes < 60,
        t.seconds < 60,
        t.milliseconds < 1000,
        e >= 0,
    ensures
        hands_after(t, e).0 == (day_millis(t) + e) % 60_000,
        hands_after(t, e).1 == (day_millis(t) + e) % 3_600_000,
{
    lemma_hour_hand_tracks_elapsed(t, e);
    lemma_trunc_rem_bounds(e, 1000);
    lemma_trunc_rem_bounds(trunc_div(e, 1000), 60);
    lemma_trunc_rem_bounds(trunc_div(e, 60_000), 60);
    lemma_trunc_rem_bounds(e, 3_600_000);
    let total_millis = t.milliseconds + trunc_rem(e, 1000);
    lemma_trunc_rem_bounds(total_millis, 1000);
    let total_seconds = t.seconds + trunc_rem(trunc_div(e, 1000), 60) + trunc_div(total_millis, 1000);
    lemma_trunc_rem_bounds(total_seconds, 60);
    let total_minutes = t.minutes + trunc_rem(trunc_div(e, 60_000), 60) + trunc_div(total_seconds, 60);
    lemma_trunc_rem_bounds(total_minutes, 60);
    let hours = t.hours + trunc_div(e, 3_600_000) + trunc_div(total_minutes, 60);
    let (s, m, h) = hands_after(t, e);
    lemma_fundamental_div_mod_converse(h, 3_600_000, hours, m);
    lemma_fundamental_div_mod_converse(h, 60_000, hours * 60 + trunc_rem(total_minutes, 60), s);
}

/// The positions of the three hands of a clock started at the time of day
/// of `datetime`, after `duration` milliseconds.
pub fn calculate_clock_angles(datetime: &Time, duration: i64) -> (r: HandAngles)
    requires
        i64::MIN + 3_600_000 <= day_millis(*datetime) + duration <= i64::MAX - 3_600_000,
    ensures
        (r.seconds as int, r.minutes as int, r.hours as int) == hands_after(*datetime, duration as int),
        r.hours == day_millis(*datetime) + duration,
        datetime.minutes < 60 && datetime.seconds < 60 && datetime.milliseconds < 1000
            && duration >= 0 ==> {
            &&& r.seconds == (day_millis(*datetime) + duration) % 60_000
            &&& r.minutes == (day_millis(*datetime) + duration) % 3_600_000
        },
{
    let elapsed_ms = duration;

    let base_millis = datetime.milliseconds as i64;
    let base_seconds = datetime.seconds as i64;
    let base_minutes = datetime.minutes as i64;
    let base_hours = datetime.hours as i64;

    proof {
        lemma_hour_hand_tracks_elapsed(*datetime, duration as int);
        lemma_trunc_rem_bounds(duration as int, 1000);
        lemma_trunc_rem_bounds(trunc_div(duration as int, 1000), 60);
        lemma_trunc_rem_bounds(trunc_div(duration as int, 60_000), 60);
        lemma_trunc_rem_bounds(duration as int, 3_600_000);
    }
    let total_millis = base_millis + (elapsed_ms % 1000);
    assert(total_millis == datetime.milliseconds + trunc_rem(duration as int, 1000)) by {
        reveal(trunc_div);
    }
    proof {
        lemma_trunc_rem_bounds(total_millis as int, 1000);
    }
    let carry_seconds = total_millis / 1000;
    let millis = total_millis % 1000;
    assert(carry_seconds == trunc_div(total_millis as int, 1000)) by {
        reveal(trunc_div);
    }

    let total_seconds = base_seconds + (elapsed_ms / 1000) % 60 + carry_seconds;
    assert(total_seconds == datetime.seconds + trunc_rem(trunc_div(duration as int, 1000), 60)
        + carry_seconds) by {
        reveal(trunc_div);
    }
    proof {
        lemma_trunc_rem_bounds(total_seconds as int, 60);
    }
    let carry_minutes = total_seconds / 60;
    let seconds = total_seconds % 60;
    assert(carry_minutes == trunc_div(total_seconds as int, 60)) by {
        reveal(trunc_div);
    }

    let total_minutes = base_minutes + (elapsed_ms / (1000 * 60)) % 60 + carry_minutes;
    assert(total_minutes == datetime.minutes + trunc_rem(trunc_div(duration as int, 60_000), 60)
        + carry_minutes) by {
        reveal(trunc_div);
    }
    proof {
        lemma_trunc_rem_bounds(total_minutes as int, 60);
    }
    let carry_hours = total_minutes / 60;
    let minutes = total_minutes % 60;
    assert(carry_hours == trunc_div(total_minutes as int, 60)) by {
        reveal(trunc_div);
    }

    let hours = base_hours + (elapsed_ms / (1000 * 60 * 60)) + carry_hours;
    assert(hours == datetime.hours + trunc_div(duration as int, 3_600_000) + carry_hours) by {
        reveal(trunc_div);
    }

    let second_angle = seconds * 1000 + millis;
    let minute_angle = minutes * 60_000 + second_angle;
    assert(hours * 3_600_000 + minute_angle == hands_after(*datetime, duration as int).2);
    let hour_angle = hours * 3_600_000 + minute_angle;
    assert(datetime.minutes < 60 && datetime.seconds < 60 && datetime.milliseconds < 1000
        && duration >= 0 ==> {
        &&& hands_after(*datetime, duration as int).0 == (day_millis(*datetime) + duration)
            % 60_000
        &&& hands_after(*datetime, duration as int).1 == (day_millis(*datetime) + duration)
            % 3_600_000
    }) by {
        if datetime.minutes < 60 && datetime.seconds < 60 && datetime.milliseconds < 1000
            && duration >= 0 {
            lemma_hands_wrap_on_dials(*datetime, duration as int);
        }
    }

    HandAngles { seconds: second_angle, minutes: minute_angle, hours: hour_angle }
}

} // verus!
