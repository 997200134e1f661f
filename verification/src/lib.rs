//! A small in-process recurring-job scheduler.
//!
//! Callers register jobs in a shared registry and then launch schedules that
//! fire all registered jobs either at a fixed interval (`run_every`) or once a
//! day at a given wall-clock time (`run_at`). The scheduling core is modelled
//! and verified here: the tick counter a timer advances (`clock::Clock`), the
//! per-subscriber cursor that turns counter movement into wake-ups
//! (`clock::Channel`), the dispatch loop's decisions (`clock::Ticker`,
//! `Croissant::dispatch_pass`), and the wall-clock arithmetic behind daily
//! schedules (`schedule`). The embedding program supplies the threads, the
//! sleeps and the wait/notify primitive, and drives this model through its
//! public operations.

use vstd::prelude::*;

pub mod clock;
pub mod schedule;

verus! {

/// How a registered job runs when its turn comes: synchronously on the
/// dispatch thread, or handed to an asynchronous runtime without waiting.
#[derive(Clone, Copy, PartialEq, Eq, Structural, Debug)]
pub enum JobKind {
    Sync,
    Async,
}

/// One registered job: its slot in registration order and how it runs.
/// The embedding program keeps the job's closure and context under the same
/// slot number.
#[derive(Clone, Copy, PartialEq, Eq, Structural, Debug)]
pub struct JobEntry {
    pub id: usize,
    pub kind: JobKind,
}

/// What the dispatch loop does with one entry when its turn comes: run it on
/// the spot and wait for it to finish, or hand it to the asynchronous runtime
/// and move on at once.
#[derive(Clone, Copy, PartialEq, Eq, Structural, Debug)]
pub enum DispatchAction {
    RunToCompletion,
    SpawnDetached,
}

/// The action owed to a job of the given kind: a synchronous job runs to
/// completion on the dispatch thread, an asynchronous one is spawned and not
/// awaited.
pub open spec fn action_of(kind: JobKind) -> DispatchAction {
    match kind {
        JobKind::Sync => DispatchAction::RunToCompletion,
        JobKind::Async => DispatchAction::SpawnDetached,
    }
}

impl JobEntry {
    /// The execute decision of the uniform capability: how the dispatch loop
    /// must treat this entry.
    pub fn execute_action(&self) -> (a: DispatchAction)
        ensures
            a == action_of(self.kind),
    {
        match self.kind {
            JobKind::Sync => DispatchAction::RunToCompletion,
            JobKind::Async => DispatchAction::SpawnDetached,
        }
    }
}

/// The scheduler: an append-only registry of jobs, shared by every schedule
/// launched from it. `run_every` and `run_at` build the clock and ticker of
/// one schedule; each tick's dispatch pass then reads the registry as it is
/// at that moment, so jobs added after launch are picked up too.
pub struct Croissant {
    jobs: Vec<JobEntry>,
}

impl Croissant {
    /// The registered jobs, in registration order.
    pub closed spec fn jobs_spec(&self) -> Seq<JobEntry> {
        self.jobs@
    }

    /// Every entry's id is its slot in registration order.
    pub open spec fn wf(&self) -> bool {
        forall|i: int|
            0 <= i < self.jobs_spec().len() ==> (#[trigger] self.jobs_spec()[i]).id == i
    }

    /// A scheduler with no jobs registered.
    pub fn new() -> (c: Croissant)
        ensures
            c.jobs_spec() == Seq::<JobEntry>::empty(),
            c.wf(),
    {
        let c = Croissant { jobs: Vec::new() };
        proof {
            assert(c.jobs@ =~= Seq::<JobEntry>::empty());
        }
        c
    }

    /// How many jobs are registered.
    pub fn len(&self) -> (n: usize)
        ensures
            n == self.jobs_spec().len(),
    {
        self.jobs.len()
    }

    /// Registers a synchronous job and returns its slot: the registry grows
    /// by exactly that entry, at the end, and nothing else changes.
    pub fn add_job(&mut self) -> (id: usize)
        requires
            old(self).wf(),
        ensures
            id == old(self).jobs_spec().len(),
            final(self).jobs_spec() == old(self).jobs_spec().push(
                JobEntry { id, kind: JobKind::Sync },
            ),
            final(self).wf(),
    {
        let id = self.jobs.len();
        self.jobs.push(JobEntry { id, kind: JobKind::Sync });
        id
    }

    /// Registers an asynchronous job and returns its slot: the registry
    /// grows by exactly that entry, at the end, and nothing else changes.
    pub fn add_async_job(&mut self) -> (id: usize)
        requires
            old(self).wf(),
        ensures
            id == old(self).jobs_spec().len(),
            final(self).jobs_spec() == old(self).jobs_spec().push(
                JobEntry { id, kind: JobKind::Async },
            ),
            final(self).wf(),
    {
        let id = self.jobs.len();
        self.jobs.push(JobEntry { id, kind: JobKind::Async });
        id
    }

    /// One dispatch pass: the jobs to fire on one tick, exactly the registry
    /// as it stands now, in registration order.
    pub fn dispatch_pass(&self) -> (pass: Vec<JobEntry>)
        ensures
            pass@ == self.jobs_spec(),
    {
        let mut pass: Vec<JobEntry> = Vec::new();
        let mut i: usize = 0;
        while i < self.jobs.len()
            invariant
                i <= self.jobs.len(),
                pass@ == self.jobs@.take(i as int),
            decreases self.jobs.len() - i,
        {
            proof {
                assert(self.jobs@.take(i + 1) =~= self.jobs@.take(i as int).push(
                    self.jobs@[i as int],
                ));
            }
            pass.push(self.jobs[i]);
            i = i + 1;
        }
        proof {
            assert(self.jobs@.take(self.jobs@.len() as int) =~= self.jobs@);
        }
        pass
    }

    /// Launches a fixed-interval schedule: a fresh clock whose timer fires
    /// every `step_ms` milliseconds, and a ticker subscribed to it as of now,
    /// so it fires only for ticks after the launch. The embedding program
    /// runs the timer loop and the dispatch loop.
    pub fn run_every(&self, step_ms: u64) -> (r: (clock::Clock, clock::Ticker))
        ensures
            r.0.counter_spec() == 0,
            r.0.plan_spec().first_delay_ms == step_ms,
            r.0.plan_spec().period_ms == step_ms,
            r.1.last_seen_spec() == r.0.counter_spec(),
    {
        let c = clock::Clock::new(step_ms);
        let t = clock::Ticker::new(&c);
        (c, t)
    }

    /// Launches a daily schedule: a fresh clock whose timer fires first at
    /// the next wall-clock occurrence of `time` and then once a day, and a
    /// ticker subscribed to it as of now.
    pub fn run_at(&self, time: schedule::TimeOfDay) -> (r: (clock::Clock, clock::Ticker))
        requires
            time.wf(),
        ensures
            r.0.counter_spec() == 0,
            r.0.plan_spec().period_ms == schedule::MS_PER_DAY,
            r.0.plan_spec().first_delay_ms < schedule::MS_PER_DAY,
            exists|now: int|
                0 <= now < 86400 && r.0.plan_spec().first_delay_ms == 1000
                    * #[trigger] schedule::delay_secs(now, time.as_secs() as int),
            r.1.last_seen_spec() == r.0.counter_spec(),
    {
        let c = clock::Clock::start_at(time, schedule::MS_PER_DAY);
        let t = clock::Ticker::new(&c);
        (c, t)
    }
}

impl Default for Croissant {
    /// The same empty scheduler as `new`.
    fn default() -> (c: Croissant)
        ensures
            c.jobs_spec() == Seq::<JobEntry>::empty(),
            c.wf(),
    {
        Croissant::new()
    }
}

/// A job added to the registry stands at the end of every later dispatch
/// pass, and every job registered before it keeps its place: schedules
/// already running pick the new job up, and the old order is untouched.
pub proof fn lemma_added_job_is_dispatched(before: Seq<JobEntry>, after: Seq<JobEntry>, e: JobEntry)
    requires
        after == before.push(e),
    ensures
        after.len() == before.len() + 1,
        after[after.len() - 1] == e,
        forall|i: int| 0 <= i < before.len() ==> after[i] == before[i],
{
}

/// Within one dispatch pass jobs run in registration order: the pass is the
/// registry itself, and its i-th job is the one registered i-th.
pub proof fn lemma_pass_follows_registration(c: Croissant, pass: Seq<JobEntry>)
    requires
        c.wf(),
        pass == c.jobs_spec(),
    ensures
        forall|i: int| 0 <= i < pass.len() ==> (#[trigger] pass[i]).id == i,
{
}

} // verus!
