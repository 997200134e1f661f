use croissant::schedule::{TimeOfDay, MS_PER_DAY};
use croissant::{Croissant, DispatchAction, JobEntry, JobKind};

#[test]
fn registration_assigns_slots_in_order() {
    let mut c = Croissant::new();
    assert_eq!(c.len(), 0);
    assert_eq!(c.add_job(), 0);
    assert_eq!(c.add_async_job(), 1);
    assert_eq!(c.add_job(), 2);
    assert_eq!(c.len(), 3);
}

#[test]
fn default_scheduler_is_empty() {
    let c = Croissant::default();
    assert_eq!(c.len(), 0);
    assert!(c.dispatch_pass().is_empty());
}

#[test]
fn dispatch_runs_jobs_in_registration_order() {
    let mut c = Croissant::new();
    let j1 = c.add_job();
    let j2 = c.add_job();
    let j3 = c.add_job();
    let mut observed: Vec<usize> = Vec::new();
    for entry in c.dispatch_pass() {
        observed.push(entry.id);
    }
    assert_eq!(observed, vec![j1, j2, j3]);
    assert_eq!(observed, vec![0, 1, 2]);
}

#[test]
fn sync_jobs_run_to_completion_and_async_jobs_are_spawned() {
    let mut c = Croissant::new();
    c.add_job();
    c.add_async_job();
    let pass = c.dispatch_pass();
    assert_eq!(pass[0].execute_action(), DispatchAction::RunToCompletion);
    assert_eq!(pass[1].execute_action(), DispatchAction::SpawnDetached);
}

#[test]
fn every_tick_dispatches_one_pass() {
    // One synchronous job that bumps a counter, on a 100 ms schedule: three
    // elapsed periods mean three passes, so the counter reads 3.
    let mut c = Croissant::new();
    c.add_job();
    let (mut clock, mut ticker) = c.run_every(100);
    let mut count: u64 = 0;
    for _ in 0..3 {
        clock.tick();
        if ticker.poll(clock.counter()) {
            for entry in c.dispatch_pass() {
                if entry.execute_action() == DispatchAction::RunToCompletion {
                    count += 1;
                }
            }
        }
    }
    assert_eq!(count, 3);
}

#[test]
fn jobs_added_after_launch_join_the_next_pass() {
    let mut c = Croissant::new();
    let first = c.add_job();
    let (mut clock, mut ticker) = c.run_every(100);

    clock.tick();
    assert!(ticker.poll(clock.counter()));
    let pass = c.dispatch_pass();
    assert_eq!(pass.len(), 1);
    assert_eq!(pass[0].id, first);

    let second = c.add_async_job();
    clock.tick();
    assert!(ticker.poll(clock.counter()));
    let pass = c.dispatch_pass();
    assert_eq!(pass.len(), 2);
    assert_eq!(pass[0], JobEntry { id: first, kind: JobKind::Sync });
    assert_eq!(pass[1], JobEntry { id: second, kind: JobKind::Async });
}

#[test]
fn async_dispatch_does_not_hold_up_the_ticker() {
    // An asynchronous job is only handed over, never awaited: the pass that
    // contains it finishes at once and the ticker takes the next tick.
    let mut c = Croissant::new();
    c.add_async_job();
    let (mut clock, mut ticker) = c.run_every(100);
    let mut completed_inline = false;
    clock.tick();
    assert!(ticker.poll(clock.counter()));
    for entry in c.dispatch_pass() {
        if entry.execute_action() == DispatchAction::RunToCompletion {
            completed_inline = true;
        }
    }
    assert!(!completed_inline);
    clock.tick();
    assert!(ticker.poll(clock.counter()));
}

#[test]
fn test() {
    let mut c = Croissant::new();
    c.add_job();
    c.add_async_job();
    c.add_async_job();
    let (clock, _ticker) = c.run_at(TimeOfDay::from_hms(20, 49, 40));
    assert_eq!(clock.counter(), 0);
    assert_eq!(clock.plan().period_ms, MS_PER_DAY);
    assert!(clock.plan().first_delay_ms < MS_PER_DAY);
    assert_eq!(c.dispatch_pass().len(), 3);
}
