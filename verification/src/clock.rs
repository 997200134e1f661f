//! The tick source and its subscribers.
//!
//! A `Clock` is a counter that a timer loop advances by one per firing and
//! that any number of `Channel` cursors read. A `Channel` turns "the counter
//! moved past what I last saw" into a single observation, coalescing missed
//! ticks into the latest value. A `Ticker` couples a fresh channel to a
//! dispatch decision. The timer loop, the threads and the wait/notify
//! primitive that block a real subscriber live in the embedding program,
//! which drives these operations and waits exactly while `next` returns
//! nothing.

use vstd::prelude::*;

use crate::schedule::MS_PER_DAY;
use crate::schedule::SchedulePlan;
use crate::schedule::TimeOfDay;
use crate::schedule::delay_secs;
use crate::schedule::now_time_of_day;
use crate::schedule::plan_at;
use crate::schedule::plan_every;

verus! {

/// A tick counter together with the timing plan its timer loop follows.
/// The counter starts at zero and each timer firing advances it by exactly
/// one, so it never decreases.
#[derive(Clone, Copy, PartialEq, Eq, Structural, Debug)]
pub struct Clock {
    counter: u64,
    plan: SchedulePlan,
}

/// One timer firing: the counter advances by exactly one and the plan stays.
pub open spec fn ticked(pre: Clock, post: Clock) -> bool {
    &&& post.counter_spec() == pre.counter_spec() + 1
    &&& post.plan_spec() == pre.plan_spec()
}

impl Clock {
    /// The current value of the tick counter.
    pub closed spec fn counter_spec(self) -> u64 {
        self.counter
    }

    /// The timing plan the timer loop follows.
    pub closed spec fn plan_spec(self) -> SchedulePlan {
        self.plan
    }

    /// A clock whose timer fires every `tick_ms` milliseconds, starting one
    /// period from now. The counter starts at zero.
    pub fn new(tick_ms: u64) -> (c: Clock)
        ensures
            c.counter_spec() == 0,
            c.plan_spec().first_delay_ms == tick_ms,
            c.plan_spec().period_ms == tick_ms,
    {
        Clock { counter: 0, plan: plan_every(tick_ms) }
    }

    /// A clock whose timer fires first at the next wall-clock occurrence of
    /// `target` and every `repeat_ms` milliseconds after that. With a repeat
    /// of one day this fires once a day at `target`.
    pub fn start_at(target: TimeOfDay, repeat_ms: u64) -> (c: Clock)
        requires
            target.wf(),
        ensures
            c.counter_spec() == 0,
            c.plan_spec().period_ms == repeat_ms,
            c.plan_spec().first_delay_ms < MS_PER_DAY,
            exists|now: int|
                0 <= now < 86400 && c.plan_spec().first_delay_ms == 1000 * #[trigger] delay_secs(
                    now,
                    target.as_secs() as int,
                ),
    {
        let now = now_time_of_day();
        let plan = plan_at(now, target, repeat_ms);
        proof {
            assert(plan.first_delay_ms == 1000 * delay_secs(
                now.as_secs() as int,
                target.as_secs() as int,
            ));
        }
        Clock { counter: 0, plan }
    }

    /// One firing of the timer loop: the counter advances by exactly one.
    pub fn tick(&mut self)
        requires
            old(self).counter_spec() < u64::MAX,
        ensures
            ticked(*old(self), *final(self)),
    {
        self.counter = self.counter + 1;
    }

    /// Reads the current counter value.
    pub fn counter(&self) -> (n: u64)
        ensures
            n == self.counter_spec(),
    {
        self.counter
    }

    /// Reads the timing plan for the timer loop.
    pub fn plan(&self) -> (p: SchedulePlan)
        ensures
            p == self.plan_spec(),
    {
        self.plan
    }

    /// Subscribes a new cursor. It starts at the counter's current value, so
    /// it observes nothing until the counter moves past that value.
    pub fn channel(&self) -> (ch: Channel)
        ensures
            ch.last_seen_spec() == self.counter_spec(),
    {
        Channel { last_seen: self.counter }
    }
}

/// A subscriber's cursor into a clock's counter: the counter value it last
/// observed.
#[derive(Clone, Copy, PartialEq, Eq, Structural, Debug)]
pub struct Channel {
    last_seen: u64,
}

/// One observation of the counter by a cursor: nothing when the counter
/// still holds what the cursor last saw (the subscriber keeps waiting), the
/// current value otherwise, and the cursor catches up to the counter either
/// way.
pub open spec fn observes(pre: Channel, counter: u64, post: Channel, r: Option<u64>) -> bool {
    &&& r == (if counter == pre.last_seen_spec() {
        Option::<u64>::None
    } else {
        Option::Some(counter)
    })
    &&& post.last_seen_spec() == counter
}

impl Channel {
    /// The counter value this cursor last observed.
    pub closed spec fn last_seen_spec(self) -> u64 {
        self.last_seen
    }

    /// One wait step against the counter's current value. `None` means the
    /// clock has not moved since the last observation and the subscriber
    /// must keep waiting; `Some(v)` delivers the counter's latest value,
    /// never the one delivered before, however many ticks passed meanwhile.
    pub fn next(&mut self, counter: u64) -> (r: Option<u64>)
        ensures
            observes(*old(self), counter, *final(self), r),
            r is Some ==> r == Some(counter) && counter != old(self).last_seen_spec(),
    {
        if counter == self.last_seen {
            None
        } else {
            self.last_seen = counter;
            Some(counter)
        }
    }
}

/// The dispatch side of one schedule: a cursor subscribed at launch. The
/// embedding program runs the loop "wait for a tick, then run one dispatch
/// pass"; `poll` is the decision inside it.
#[derive(Clone, Copy, PartialEq, Eq, Structural, Debug)]
pub struct Ticker {
    channel: Channel,
}

impl Ticker {
    /// The counter value this ticker's cursor last observed.
    pub open spec fn last_seen_spec(self) -> u64 {
        self.channel_spec().last_seen_spec()
    }

    /// This ticker's cursor.
    pub closed spec fn channel_spec(self) -> Channel {
        self.channel
    }

    /// A ticker subscribed to `clock` as of now: it fires only for ticks
    /// that happen after this call.
    pub fn new(clock: &Clock) -> (t: Ticker)
        ensures
            t.last_seen_spec() == clock.counter_spec(),
    {
        Ticker { channel: clock.channel() }
    }

    /// One round of the dispatch loop against the counter's current value:
    /// `true` exactly when the clock has moved since the last round, and a
    /// dispatch pass is owed.
    pub fn poll(&mut self, counter: u64) -> (fire: bool)
        ensures
            fire == (counter != old(self).last_seen_spec()),
            final(self).last_seen_spec() == counter,
    {
        match self.channel.next(counter) {
            Some(_) => true,
            None => false,
        }
    }
}

/// Every timer firing strictly advances the counter: a fresh clock's counter
/// has moved past its starting value as soon as the timer has fired once.
pub proof fn lemma_tick_advances(pre: Clock, post: Clock)
    requires
        ticked(pre, post),
    ensures
        post.counter_spec() > pre.counter_spec(),
{
}

/// Two successive successful observations by one cursor never deliver the
/// same value twice in a row.
pub proof fn lemma_next_never_repeats(
    ch0: Channel,
    c1: u64,
    ch1: Channel,
    v1: u64,
    c2: u64,
    ch2: Channel,
    v2: u64,
)
    requires
        observes(ch0, c1, ch1, Some(v1)),
        observes(ch1, c2, ch2, Some(v2)),
    ensures
        v2 != v1,
{
}

/// A cursor subscribed after N ticks blocks on its first wait: while the
/// counter still holds the value seen at subscription it observes nothing.
pub proof fn lemma_fresh_channel_blocks(clock: Clock, ch: Channel, post: Channel, r: Option<u64>)
    requires
        ch.last_seen_spec() == clock.counter_spec(),
        observes(ch, clock.counter_spec(), post, r),
    ensures
        r is None,
{
}

/// The tick after subscription unblocks the cursor and delivers the new
/// counter value.
pub proof fn lemma_next_tick_unblocks(
    pre: Clock,
    post: Clock,
    ch: Channel,
    ch2: Channel,
    r: Option<u64>,
)
    requires
        pre.counter_spec() < u64::MAX,
        ch.last_seen_spec() == pre.counter_spec(),
        ticked(pre, post),
        observes(ch, post.counter_spec(), ch2, r),
    ensures
        r == Some(post.counter_spec()),
{
}

} // verus!
