use heph::heap::{Key, MinHeap};
use heph::pid::ProcessId;
use heph::priority::Priority;
use heph::process::{ProcessRecord, ProcessState};
use heph::scheduler::{Resolution, Scheduler, SchedulerError};
use heph::time::{Span, Timestamp};
use heph::timers::DeadlineRegistry;

#[test]
fn new_scheduler_is_empty() {
    let scheduler: Scheduler<&str> = Scheduler::new();
    assert!(scheduler.is_empty());
    assert!(!scheduler.has_ready());
    assert_eq!(scheduler.running(), None);
    assert_eq!(scheduler.state(ProcessId(1)), None);
}

#[test]
fn add_process_gives_lowest_free_pid() {
    let mut scheduler = Scheduler::new();
    assert_eq!(scheduler.add_process(Priority::Normal, "a"), ProcessId(1));
    assert_eq!(scheduler.add_process(Priority::Normal, "b"), ProcessId(2));
    assert_eq!(scheduler.add_process(Priority::Normal, "c"), ProcessId(3));
    assert!(!scheduler.is_empty());
    assert!(scheduler.has_ready());
    assert_eq!(scheduler.state(ProcessId(2)), Some(ProcessState::Ready));
    assert_eq!(scheduler.state(ProcessId(0)), None);
    assert_eq!(scheduler.runtime(ProcessId(2)), Some(Span(0)));
    assert_eq!(scheduler.priority(ProcessId(2)), Some(Priority::Normal));
}

#[test]
fn pid_is_reused_only_after_drop() {
    let mut scheduler = Scheduler::new();
    let a = scheduler.add_process(Priority::Normal, "a");
    let b = scheduler.add_process(Priority::Normal, "b");
    let c = scheduler.add_process(Priority::Normal, "c");
    assert_eq!((a, b, c), (ProcessId(1), ProcessId(2), ProcessId(3)));

    // All runtimes are equal, so the lowest identifier runs first.
    let first = scheduler.next_ready().unwrap();
    assert_eq!(first.id(), a);
    // While it is handed out its identifier is not free.
    assert_eq!(scheduler.state(a), Some(ProcessState::Running));
    assert_eq!(scheduler.reintegrate(first, Resolution::Drop, Span(5)), Ok(()));
    assert_eq!(scheduler.state(a), None);

    assert_eq!(scheduler.add_process(Priority::Normal, "d"), ProcessId(1));
    assert_eq!(scheduler.add_process(Priority::Normal, "e"), ProcessId(4));
}

#[test]
fn at_most_one_process_is_handed_out() {
    let mut scheduler = Scheduler::new();
    scheduler.add_process(Priority::Normal, 1u8);
    scheduler.add_process(Priority::Normal, 2u8);

    let running = scheduler.next_ready().unwrap();
    assert_eq!(scheduler.running(), Some(running.id()));
    assert!(scheduler.has_ready());
    // Another one is ready, but none is handed out beside the first.
    assert!(scheduler.next_ready().is_none());

    assert_eq!(scheduler.reintegrate(running, Resolution::Suspend, Span(1)), Ok(()));
    assert_eq!(scheduler.running(), None);
    assert_eq!(scheduler.next_ready().unwrap().id(), ProcessId(2));
}

#[test]
fn next_ready_on_nothing_ready() {
    let mut scheduler = Scheduler::new();
    assert!(scheduler.next_ready().is_none());
    let pid = scheduler.add(Priority::High, (), false);
    assert_eq!(scheduler.state(pid), Some(ProcessState::Inactive));
    assert!(!scheduler.has_ready());
    assert!(scheduler.next_ready().is_none());
    scheduler.mark_ready(pid);
    assert_eq!(scheduler.next_ready().unwrap().id(), pid);
}

#[test]
fn higher_priority_runs_first_on_equal_runtime() {
    let mut scheduler = Scheduler::new();
    let low = scheduler.add_process(Priority::Low, "low");
    let normal = scheduler.add_process(Priority::Normal, "normal");
    let high = scheduler.add_process(Priority::High, "high");

    let first = scheduler.next_ready().unwrap();
    assert_eq!(first.id(), high);
    assert_eq!(first.payload, "high");
    scheduler.reintegrate(first, Resolution::Drop, Span(0)).unwrap();
    let second = scheduler.next_ready().unwrap();
    assert_eq!(second.id(), normal);
    scheduler.reintegrate(second, Resolution::Drop, Span(0)).unwrap();
    let third = scheduler.next_ready().unwrap();
    assert_eq!(third.id(), low);
}

#[test]
fn priority_preemption_of_selection() {
    let mut scheduler = Scheduler::new();
    let low = scheduler.add_process(Priority::Low, ());
    let high = scheduler.add_process(Priority::High, ());

    // Both ready with no runtime: the high one runs.
    let first = scheduler.next_ready().unwrap();
    assert_eq!(first.id(), high);
    scheduler.mark_ready(high);
    scheduler
        .reintegrate(first, Resolution::Suspend, Span::from_millis(1))
        .unwrap();
    assert_eq!(scheduler.state(high), Some(ProcessState::Ready));
    assert_eq!(scheduler.runtime(high), Some(Span(1_000_000)));

    // 1 ms x weight(High) > 0 x weight(Low): now the low one runs.
    let second = scheduler.next_ready().unwrap();
    assert_eq!(second.id(), low);
}

#[test]
fn weighted_runtime_decides_selection() {
    let mut scheduler = Scheduler::new();
    let normal = scheduler.add_process(Priority::Normal, ());
    let high = scheduler.add_process(Priority::High, ());

    // High ran 3 ms: 3 x 4 = 12. Normal ran 1 ms: 1 x 16 = 16.
    let p = scheduler.next_ready().unwrap();
    assert_eq!(p.id(), high);
    scheduler.mark_ready(high);
    scheduler.reintegrate(p, Resolution::Suspend, Span::from_millis(3)).unwrap();
    let p = scheduler.next_ready().unwrap();
    assert_eq!(p.id(), normal);
    scheduler.mark_ready(normal);
    scheduler.reintegrate(p, Resolution::Suspend, Span::from_millis(1)).unwrap();

    let p = scheduler.next_ready().unwrap();
    assert_eq!(p.id(), high);
    assert_eq!(p.fair_runtime(), 12_000_000);
    // One more millisecond makes it 16 against 16: the priority decides.
    scheduler.mark_ready(high);
    scheduler.reintegrate(p, Resolution::Suspend, Span::from_millis(1)).unwrap();
    let p = scheduler.next_ready().unwrap();
    assert_eq!(p.id(), high);
    // 20 against 16.
    scheduler.mark_ready(high);
    scheduler.reintegrate(p, Resolution::Suspend, Span::from_millis(1)).unwrap();
    assert_eq!(scheduler.next_ready().unwrap().id(), normal);
}

#[test]
fn pending_process_waits_for_a_wake() {
    let mut scheduler = Scheduler::new();
    let pid = scheduler.add_process(Priority::Normal, ());
    let p = scheduler.next_ready().unwrap();
    scheduler.reintegrate(p, Resolution::Suspend, Span(7)).unwrap();
    assert_eq!(scheduler.state(pid), Some(ProcessState::Inactive));
    assert!(!scheduler.has_ready());
    assert!(!scheduler.is_empty());

    scheduler.mark_ready(pid);
    assert_eq!(scheduler.state(pid), Some(ProcessState::Ready));
    // A second wake changes nothing.
    scheduler.mark_ready(pid);
    assert_eq!(scheduler.state(pid), Some(ProcessState::Ready));
    assert_eq!(scheduler.next_ready().unwrap().id(), pid);
    assert!(scheduler.next_ready().is_none());
}

#[test]
fn wake_during_step_makes_ready_on_return() {
    let mut scheduler = Scheduler::new();
    let pid = scheduler.add_process(Priority::Normal, ());
    let p = scheduler.next_ready().unwrap();
    scheduler.mark_ready(pid);
    assert_eq!(scheduler.state(pid), Some(ProcessState::Running));
    scheduler.reintegrate(p, Resolution::Suspend, Span(7)).unwrap();
    assert_eq!(scheduler.state(pid), Some(ProcessState::Ready));
}

#[test]
fn restarted_process_is_ready_at_once() {
    let mut scheduler = Scheduler::new();
    let pid = scheduler.add_process(Priority::Normal, ());
    let p = scheduler.next_ready().unwrap();
    scheduler.reintegrate(p, Resolution::Restart, Span(7)).unwrap();
    assert_eq!(scheduler.state(pid), Some(ProcessState::Ready));
    assert_eq!(scheduler.runtime(pid), Some(Span(7)));
}

#[test]
fn wake_for_unknown_pid_is_discarded() {
    let mut scheduler: Scheduler<()> = Scheduler::new();
    scheduler.mark_ready(ProcessId(0));
    scheduler.mark_ready(ProcessId(7));
    scheduler.mark_ready(ProcessId(usize::MAX));
    assert!(scheduler.is_empty());
    assert!(!scheduler.has_ready());
    assert!(scheduler.next_ready().is_none());
}

#[test]
fn no_step_for_a_completed_process() {
    let mut scheduler = Scheduler::new();
    let pid = scheduler.add_process(Priority::Normal, ());
    let other = scheduler.add_process(Priority::Low, ());
    let p = scheduler.next_ready().unwrap();
    assert_eq!(p.id(), pid);
    scheduler.reintegrate(p, Resolution::Drop, Span(3)).unwrap();

    // Wakes for the dropped process arrive late.
    scheduler.mark_ready(pid);
    scheduler.mark_ready(pid);
    assert_eq!(scheduler.state(pid), None);
    let p = scheduler.next_ready().unwrap();
    assert_eq!(p.id(), other);
    scheduler.reintegrate(p, Resolution::Drop, Span(3)).unwrap();
    assert!(scheduler.next_ready().is_none());
    assert!(scheduler.is_empty());
}

#[test]
fn runtime_is_the_sum_of_the_steps() {
    let mut scheduler = Scheduler::new();
    let pid = scheduler.add_process(Priority::Normal, ());
    let mut sum = 0;
    for d in [5u64, 0, 250, 1_000_000] {
        let p = scheduler.next_ready().unwrap();
        assert_eq!(p.runtime(), Span(sum));
        scheduler.reintegrate(p, Resolution::Restart, Span(d)).unwrap();
        sum += d;
        assert_eq!(scheduler.runtime(pid), Some(Span(sum)));
    }
    assert_eq!(sum, 1_000_255);
}

#[test]
fn runtime_is_held_at_the_largest_length() {
    let mut scheduler = Scheduler::new();
    let pid = scheduler.add_process(Priority::Normal, ());
    let p = scheduler.next_ready().unwrap();
    scheduler.reintegrate(p, Resolution::Restart, Span(u64::MAX - 1)).unwrap();
    let p = scheduler.next_ready().unwrap();
    scheduler.reintegrate(p, Resolution::Restart, Span(5)).unwrap();
    assert_eq!(scheduler.runtime(pid), Some(Span(u64::MAX)));
}

#[test]
fn readding_a_present_process_is_refused() {
    let mut scheduler = Scheduler::new();
    let pid = scheduler.add_process(Priority::Normal, ());
    let forged = ProcessRecord::new(pid, Priority::Normal, Span(0), ());
    assert_eq!(
        scheduler.reintegrate(forged, Resolution::Suspend, Span(1)),
        Err(SchedulerError::DuplicatePid)
    );
    assert_eq!(scheduler.state(pid), Some(ProcessState::Ready));
    assert_eq!(scheduler.runtime(pid), Some(Span(0)));

    let unknown = ProcessRecord::new(ProcessId(9), Priority::Normal, Span(0), ());
    assert_eq!(
        scheduler.reintegrate(unknown, Resolution::Suspend, Span(1)),
        Err(SchedulerError::UnknownPid)
    );
    let zero = ProcessRecord::new(ProcessId(0), Priority::Normal, Span(0), ());
    assert_eq!(
        scheduler.reintegrate(zero, Resolution::Drop, Span(1)),
        Err(SchedulerError::UnknownPid)
    );
}

#[test]
fn many_processes_come_out_in_order() {
    let mut scheduler = Scheduler::new();
    let runtimes = [9u64, 3, 7, 1, 8, 2, 6, 4, 5, 0];
    let mut pids = Vec::new();
    for _ in runtimes.iter() {
        pids.push(scheduler.add(Priority::Normal, (), false));
    }
    // Give each its runtime: wake it, run it, and take it back suspended.
    for (pid, d) in pids.iter().zip(runtimes.iter()) {
        scheduler.mark_ready(*pid);
        let p = scheduler.next_ready().unwrap();
        assert_eq!(p.id(), *pid);
        scheduler.reintegrate(p, Resolution::Suspend, Span(*d)).unwrap();
    }
    for pid in pids.iter() {
        scheduler.mark_ready(*pid);
    }
    let mut seen = Vec::new();
    while let Some(p) = scheduler.next_ready() {
        seen.push(p.runtime().0);
        scheduler.reintegrate(p, Resolution::Drop, Span(0)).unwrap();
    }
    assert_eq!(seen, vec![0, 1, 2, 3, 4, 5, 6, 7, 8, 9]);
    assert!(scheduler.is_empty());
}

#[test]
fn heap_hands_out_the_least_key_first() {
    let mut heap = MinHeap::new();
    assert!(heap.is_empty());
    assert_eq!(heap.pop(), None);
    let keys = [(5u128, 0u8, 1usize), (5, 0, 0), (1, 2, 9), (1, 1, 9), (7, 0, 0), (1, 1, 3)];
    for (major, minor, pid) in keys {
        heap.push(Key { major, minor, pid });
    }
    assert_eq!(heap.len(), 6);
    assert_eq!(heap.peek(), Some(Key { major: 1, minor: 1, pid: 3 }));
    let mut out = Vec::new();
    while let Some(k) = heap.pop() {
        out.push((k.major, k.minor, k.pid));
    }
    assert_eq!(out, vec![(1, 1, 3), (1, 1, 9), (1, 2, 9), (5, 0, 0), (5, 0, 1), (7, 0, 0)]);
    assert!(heap.is_empty());
}

#[test]
fn deadlines_expire_in_order() {
    let mut timers = DeadlineRegistry::new();
    assert!(timers.is_empty());
    assert_eq!(timers.next_deadline(), None);
    assert_eq!(timers.next_timeout(Timestamp(10)), None);

    timers.add(ProcessId(2), Timestamp(50));
    timers.add(ProcessId(1), Timestamp(30));
    timers.add(ProcessId(3), Timestamp(30));
    timers.add(ProcessId(1), Timestamp(30));
    assert_eq!(timers.next_deadline(), Some((Timestamp(30), ProcessId(1))));
    assert_eq!(timers.next_timeout(Timestamp(10)), Some(Span(20)));
    assert_eq!(timers.next_timeout(Timestamp(30)), Some(Span(0)));
    assert_eq!(timers.next_timeout(Timestamp(45)), Some(Span(0)));

    assert_eq!(timers.pop_expired(Timestamp(29)), None);
    assert_eq!(timers.pop_expired(Timestamp(30)), Some((Timestamp(30), ProcessId(1))));
    // The deadline that was registered twice is gone at once.
    assert_eq!(timers.pop_expired(Timestamp(30)), Some((Timestamp(30), ProcessId(3))));
    assert_eq!(timers.pop_expired(Timestamp(30)), None);
    assert_eq!(timers.next_timeout(Timestamp(45)), Some(Span(5)));
    assert_eq!(timers.pop_expired(Timestamp(u64::MAX)), Some((Timestamp(50), ProcessId(2))));
    assert!(timers.is_empty());
}

#[test]
fn deadlines_can_be_taken_out() {
    let mut timers = DeadlineRegistry::new();
    assert!(!timers.remove(ProcessId(1), Timestamp(30)));
    for (pid, at) in [(2, 50), (1, 30), (3, 30), (1, 30), (1, 40), (4, 10)] {
        timers.add(ProcessId(pid), Timestamp(at));
    }
    assert!(timers.remove(ProcessId(1), Timestamp(30)));
    assert!(!timers.remove(ProcessId(1), Timestamp(30)));
    assert!(!timers.remove(ProcessId(2), Timestamp(30)));
    assert!(timers.remove(ProcessId(4), Timestamp(10)));

    let mut rest = Vec::new();
    while let Some((at, pid)) = timers.pop_expired(Timestamp(u64::MAX)) {
        rest.push((at.0, pid.0));
    }
    assert_eq!(rest, vec![(30, 3), (40, 1), (50, 2)]);
}
