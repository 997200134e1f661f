//! Wall-clock arithmetic for daily schedules: a time of day in whole seconds
//! since midnight, and the delay from "now" to the next occurrence of a
//! target time.

use vstd::prelude::*;

verus! {

/// Milliseconds in one day.
pub const MS_PER_DAY: u64 = 86400000;

/// A wall-clock time of day, held as whole seconds since midnight.
#[derive(Clone, Copy, PartialEq, Eq, Structural, Debug)]
pub struct TimeOfDay {
    secs: u32,
}

/// Seconds from `now` until the next wall-clock occurrence of `target`,
/// both given as seconds since midnight. Zero when the two coincide; when
/// `target` has already passed today, the occurrence is tomorrow's.
pub open spec fn delay_secs(now: int, target: int) -> int {
    if target >= now {
        target - now
    } else {
        86400 - now + target
    }
}

impl TimeOfDay {
    /// Seconds since midnight.
    pub closed spec fn as_secs(self) -> u32 {
        self.secs
    }

    /// A time of day lies strictly inside one day.
    pub open spec fn wf(self) -> bool {
        self.as_secs() < 86400
    }

    /// Builds a time of day from hours, minutes and seconds.
    pub fn from_hms(hour: u32, min: u32, sec: u32) -> (t: TimeOfDay)
        requires
            hour < 24,
            min < 60,
            sec < 60,
        ensures
            t.wf(),
            t.as_secs() == hour * 3600 + min * 60 + sec,
    {
        TimeOfDay { secs: hour * 3600 + min * 60 + sec }
    }

    /// Builds a time of day directly from seconds since midnight.
    pub fn from_seconds(secs: u32) -> (t: TimeOfDay)
        requires
            secs < 86400,
        ensures
            t.wf(),
            t.as_secs() == secs,
    {
        TimeOfDay { secs }
    }

    /// Reads the time back as seconds since midnight.
    pub fn seconds(&self) -> (s: u32)
        ensures
            s == self.as_secs(),
    {
        self.secs
    }
}

/// When a schedule's timer fires: first after `first_delay_ms` milliseconds,
/// then every `period_ms` milliseconds, forever.
#[derive(Clone, Copy, PartialEq, Eq, Structural, Debug)]
pub struct SchedulePlan {
    pub first_delay_ms: u64,
    pub period_ms: u64,
}

/// The timing plan of a fixed-interval schedule: the first firing comes one
/// full period after launch, and every later one a period after the last.
pub fn plan_every(step_ms: u64) -> (p: SchedulePlan)
    ensures
        p.first_delay_ms == step_ms,
        p.period_ms == step_ms,
{
    SchedulePlan { first_delay_ms: step_ms, period_ms: step_ms }
}

/// The timing plan of a wall-clock-aligned schedule: the first firing comes
/// at the next occurrence of `target`, and every later one `repeat_ms`
/// milliseconds after the last.
pub fn plan_at(now: TimeOfDay, target: TimeOfDay, repeat_ms: u64) -> (p: SchedulePlan)
    requires
        now.wf(),
        target.wf(),
    ensures
        p.first_delay_ms == 1000 * delay_secs(now.as_secs() as int, target.as_secs() as int),
        p.first_delay_ms < MS_PER_DAY,
        p.period_ms == repeat_ms,
{
    let d = seconds_until(now, target);
    SchedulePlan { first_delay_ms: 1000 * (d as u64), period_ms: repeat_ms }
}

/// Relies on `chrono::Local::now` and `chrono::Timelike::num_seconds_from_midnight`
/// for the local wall-clock time of day now, in whole non-leap seconds since
/// midnight, which `chrono` keeps below 86400.
#[verifier::external_body]
pub(crate) fn now_time_of_day() -> (t: TimeOfDay)
    ensures
        t.wf(),
{
    TimeOfDay { secs: chrono::Timelike::num_seconds_from_midnight(&chrono::Local::now().time()) }
}

/// Computes the delay, in seconds, from `now` until the next occurrence of
/// `target`.
pub fn seconds_until(now: TimeOfDay, target: TimeOfDay) -> (d: u32)
    requires
        now.wf(),
        target.wf(),
    ensures
        d == delay_secs(now.as_secs() as int, target.as_secs() as int),
        d < 86400,
{
    let n = now.seconds();
    let t = target.seconds();
    if t >= n {
        t - n
    } else {
        86400 - n + t
    }
}

/// The first daily dispatch lands exactly on the target time of day: the
/// delay is under one day, and adding it to `now` reaches `target` modulo one
/// day.
pub proof fn lemma_daily_alignment(now: int, target: int)
    requires
        0 <= now < 86400,
        0 <= target < 86400,
    ensures
        0 <= delay_secs(now, target) < 86400,
        (now + delay_secs(now, target)) % 86400 == target,
{
    let d = delay_secs(now, target);
    if target >= now {
        assert((now + d) % 86400 == target) by (nonlinear_arith)
            requires 0 <= now + d < 86400 && now + d == target,
        {};
    } else {
        assert((now + d) % 86400 == target) by (nonlinear_arith)
            requires now + d == 86400 + target && 0 <= target < 86400,
        {};
    }
}

} // verus!
