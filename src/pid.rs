use vstd::prelude::*;

verus! {

/// A discrete proportional-integral-derivative filter.
///
/// Errors, gains and outputs are integers in whatever fixed-point unit the
/// caller picks; the filter keeps the running sum of the errors it has seen
/// and the last one of them.
pub struct PID {
    pub kp: i64,
    pub ki: i64,
    pub kd: i64,
    pub prev_error: i64,
    pub integral: i64,
}

/// What `update` returns for `error` on a filter in state `p`.
pub open spec fn pid_output(p: PID, error: int) -> int {
    p.kp * error + p.ki * (p.integral + error) + p.kd * (error - p.prev_error)
}

/// Whether one update of `p` with `error` stays within `i64`.
pub open spec fn pid_update_fits(p: PID, error: int) -> bool {
    &&& i64::MIN <= p.integral + error <= i64::MAX
    &&& i64::MIN <= error - p.prev_error <= i64::MAX
    &&& i64::MIN <= p.kp * error <= i64::MAX
    &&& i64::MIN <= p.ki * (p.integral + error) <= i64::MAX
    &&& i64::MIN <= p.kd * (error - p.prev_error) <= i64::MAX
    &&& i64::MIN <= p.kp * error + p.ki * (p.integral + error) <= i64::MAX
    &&& i64::MIN <= pid_output(p, error) <= i64::MAX
}

/// The state of `p` after an update with `error`: same gains, the error
/// added to the running sum and kept as the last one.
pub open spec fn pid_updated(p: PID, error: i64) -> PID {
    PID {
        kp: p.kp,
        ki: p.ki,
        kd: p.kd,
        prev_error: error,
        integral: (p.integral + error) as i64,
    }
}

impl PID {
    /// Feeds one error sample to the filter and returns
    /// `kp * error + ki * (sum of errors so far) + kd * (error - previous error)`.
    pub fn update(&mut self, error: i64) -> (r: i64)
        requires
            pid_update_fits(*old(self), error as int),
        ensures
            r as int == pid_output(*old(self), error as int),
            *final(self) == pid_updated(*old(self), error),
    {
        self.integral = self.integral + error;
        let derivative = error - self.prev_error;
        self.prev_error = error;

        let p = self.kp * error;
        let i = self.ki * self.integral;
        let d = self.kd * derivative;
        p + i + d
    }

    /// Clears the filter's memory; the gains stay.
    pub fn reset(&mut self)
        ensures
            final(self).kp == old(self).kp,
            final(self).ki == old(self).ki,
            final(self).kd == old(self).kd,
            final(self).prev_error == 0,
            final(self).integral == 0,
    {
        self.prev_error = 0;
        self.integral = 0;
    }
}

impl Default for PID {
    /// A filter with zero gains and no memory.
    fn default() -> (r: PID)
        ensures
            r.kp == 0 && r.ki == 0 && r.kd == 0,
            r.prev_error == 0 && r.integral == 0,
    {
        PID { kp: 0, ki: 0, kd: 0, prev_error: 0, integral: 0 }
    }
}

/// Fed a constant error `e` from a clear state, the filter answers
/// `kp·e + ki·e + kd·e` the first time and `kp·e + ki·2e + kd·0` the second.
pub proof fn lemma_pid_constant_error(p: PID, e: i64)
    requires
        p.prev_error == 0,
        p.integral == 0,
    ensures
        pid_output(p, e as int) == p.kp * e + p.ki * e + p.kd * e,
        pid_output(pid_updated(p, e), e as int) == p.kp * e + p.ki * (2 * e) + p.kd * 0,
{
    assert(p.ki * (2 * e) == p.ki * (e + e)) by (nonlinear_arith);
}

} // verus!
