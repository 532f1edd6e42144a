use crate::pid::{pid_output, pid_update_fits, pid_updated, PID};
use crate::rust_clock_gui::utils::{trunc_div, HandAngles};
use vstd::prelude::*;

verus! {

/// The gains of the filters below are in thousandths: a filter's output is
/// divided by this before it moves a hand.
pub const GAIN_SCALE: i64 = 1000;

/// Displayed hand positions that follow their targets through one PID
/// filter per hand, so that the hands glide instead of jumping.
///
/// Positions are in the units of `HandAngles`: milliseconds on each dial.
pub struct SmoothedHands {
    pub pid_second: i64,
    pub pid_minute: i64,
    pub pid_hour: i64,
    pub second_pid: PID,
    pub minute_pid: PID,
    pub hour_pid: PID,
}

/// Where a hand shown at `shown` moves when its filter `pid` is fed the
/// distance to `target`.
pub open spec fn smoothed_step(shown: int, pid: PID, target: int) -> int {
    shown + trunc_div(pid_output(pid, target - shown), GAIN_SCALE as int)
}

/// Whether that move stays within `i64`.
pub open spec fn step_fits(shown: int, pid: PID, target: int) -> bool {
    &&& i64::MIN <= target - shown <= i64::MAX
    &&& pid_update_fits(pid, target - shown)
    &&& i64::MIN <= smoothed_step(shown, pid, target) <= i64::MAX
}

/// Whether one update of `h` towards `target` stays within `i64` for all
/// three hands.
pub open spec fn update_fits(h: SmoothedHands, target: HandAngles) -> bool {
    &&& step_fits(h.pid_second as int, h.second_pid, target.seconds as int)
    &&& step_fits(h.pid_minute as int, h.minute_pid, target.minutes as int)
    &&& step_fits(h.pid_hour as int, h.hour_pid, target.hours as int)
}

fn fits_i64(x: i128) -> (r: bool)
    ensures
        r == (i64::MIN <= x <= i64::MAX),
{
    i64::MIN as i128 <= x && x <= i64::MAX as i128
}

/// Decides `step_fits` without overflowing.
fn step_fits_exec(shown: i64, pid: &PID, target: i64) -> (r: bool)
    ensures
        r == step_fits(shown as int, *pid, target as int),
{
    let error = target as i128 - shown as i128;
    if !fits_i64(error) {
        return false;
    }
    let integral = pid.integral as i128 + error;
    let derivative = error - pid.prev_error as i128;
    if !fits_i64(integral) || !fits_i64(derivative) {
        return false;
    }
    assert(i64::MIN * i64::MIN <= 0x4000_0000_0000_0000_0000_0000_0000_0000) by (nonlinear_arith);
    assert(-0x4000_0000_0000_0000_0000_0000_0000_0000 <= pid.kp * error <= 0x4000_0000_0000_0000_0000_0000_0000_0000) by (nonlinear_arith)
        requires
            i64::MIN <= pid.kp <= i64::MAX,
            i64::MIN <= error <= i64::MAX,
    ;
    assert(-0x4000_0000_0000_0000_0000_0000_0000_0000 <= pid.ki * integral <= 0x4000_0000_0000_0000_0000_0000_0000_0000) by (nonlinear_arith)
        requires
            i64::MIN <= pid.ki <= i64::MAX,
            i64::MIN <= integral <= i64::MAX,
    ;
    assert(-0x4000_0000_0000_0000_0000_0000_0000_0000 <= pid.kd * derivative <= 0x4000_0000_0000_0000_0000_0000_0000_0000) by (nonlinear_arith)
        requires
            i64::MIN <= pid.kd <= i64::MAX,
            i64::MIN <= derivative <= i64::MAX,
    ;
    let p = pid.kp as i128 * error;
    let i = pid.ki as i128 * integral;
    let d = pid.kd as i128 * derivative;
    if !fits_i64(p) || !fits_i64(i) || !fits_i64(d) || !fits_i64(p + i) || !fits_i64(p + i + d) {
        return false;
    }
    let out = p + i + d;
    let step = out / GAIN_SCALE as i128;
    assert(step == trunc_div(out as int, GAIN_SCALE as int)) by {
        reveal(trunc_div);
    }
    fits_i64(shown as i128 + step)
}

/// Moves a hand shown at `shown` one step towards `target` through `pid`.
fn follow(shown: i64, pid: &mut PID, target: i64) -> (r: i64)
    requires
        step_fits(shown as int, *old(pid), target as int),
    ensures
        r == smoothed_step(shown as int, *old(pid), target as int),
        *final(pid) == pid_updated(*old(pid), (target - shown) as i64),
{
    let out = pid.update(target - shown);
    let step = out / GAIN_SCALE;
    assert(step == trunc_div(out as int, GAIN_SCALE as int)) by {
        reveal(trunc_div);
    }
    shown + step
}

impl SmoothedHands {
    /// Hands at zero with clear filters; the second hand's filter is the
    /// most responsive and the hour hand's the least.
    pub fn new() -> (r: SmoothedHands)
        ensures
            r.pid_second == 0 && r.pid_minute == 0 && r.pid_hour == 0,
            r.second_pid == (PID { kp: 150, ki: 5, kd: 5, prev_error: 0, integral: 0 }),
            r.minute_pid == (PID { kp: 80, ki: 4, kd: 4, prev_error: 0, integral: 0 }),
            r.hour_pid == (PID { kp: 80, ki: 2, kd: 2, prev_error: 0, integral: 0 }),
    {
        SmoothedHands {
            pid_second: 0,
            pid_minute: 0,
            pid_hour: 0,
            second_pid: PID { kp: 150, ki: 5, kd: 5, prev_error: 0, integral: 0 },
            minute_pid: PID { kp: 80, ki: 4, kd: 4, prev_error: 0, integral: 0 },
            hour_pid: PID { kp: 80, ki: 2, kd: 2, prev_error: 0, integral: 0 },
        }
    }

    /// Moves each displayed hand one step towards `target`.
    ///
    /// Returns `false`, and changes nothing, where a step would leave `i64`.
    pub fn update(&mut self, target: &HandAngles) -> (r: bool)
        ensures
            r == update_fits(*old(self), *target),
            r ==> {
                &&& final(self).pid_second == smoothed_step(
                    old(self).pid_second as int,
                    old(self).second_pid,
                    target.seconds as int,
                )
                &&& final(self).pid_minute == smoothed_step(
                    old(self).pid_minute as int,
                    old(self).minute_pid,
                    target.minutes as int,
                )
                &&& final(self).pid_hour == smoothed_step(
                    old(self).pid_hour as int,
                    old(self).hour_pid,
                    target.hours as int,
                )
                &&& final(self).second_pid == pid_updated(
                    old(self).second_pid,
                    (target.seconds - old(self).pid_second) as i64,
                )
                &&& final(self).minute_pid == pid_updated(
                    old(self).minute_pid,
                    (target.minutes - old(self).pid_minute) as i64,
                )
                &&& final(self).hour_pid == pid_updated(
                    old(self).hour_pid,
                    (target.hours - old(self).pid_hour) as i64,
                )
            },
            !r ==> *final(self) == *old(self),
    {
        if !step_fits_exec(self.pid_second, &self.second_pid, target.seconds)
            || !step_fits_exec(self.pid_minute, &self.minute_pid, target.minutes)
            || !step_fits_exec(self.pid_hour, &self.hour_pid, target.hours) {
            return false;
        }
        self.pid_second = follow(self.pid_second, &mut self.second_pid, target.seconds);
        self.pid_minute = follow(self.pid_minute, &mut self.minute_pid, target.minutes);
        self.pid_hour = follow(self.pid_hour, &mut self.hour_pid, target.hours);
        true
    }

    /// Puts the hands back to zero and clears the filters' memory; the gains
    /// stay.
    pub fn reset(&mut self)
        ensures
            final(self).pid_second == 0 && final(self).pid_minute == 0 && final(self).pid_hour == 0,
            final(self).second_pid == (PID { prev_error: 0, integral: 0, ..old(self).second_pid }),
            final(self).minute_pid == (PID { prev_error: 0, integral: 0, ..old(self).minute_pid }),
            final(self).hour_pid == (PID { prev_error: 0, integral: 0, ..old(self).hour_pid }),
    {
        self.pid_second = 0;
        self.pid_minute = 0;
        self.pid_hour = 0;
        self.second_pid.reset();
        self.minute_pid.reset();
        self.hour_pid.reset();
    }
}

} // verus!
