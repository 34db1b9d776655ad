use std::cmp::Ordering;

use heph::pid::ProcessId;
use heph::priority::Priority;
use heph::process::ProcessRecord;
use heph::time::Span;

fn record(id: usize, priority: Priority, millis: u64) -> ProcessRecord<()> {
    ProcessRecord::new(ProcessId(id), priority, Span::from_millis(millis), ())
}

#[test]
fn pid() {
    assert_eq!(ProcessId(0), ProcessId(0));
    assert_eq!(ProcessId(100), ProcessId(100));

    assert!(ProcessId(0) < ProcessId(100));

    assert_eq!(ProcessId(0).to_string(), "0");
    assert_eq!(ProcessId(100).to_string(), "100");
    assert_eq!(ProcessId(8000).to_string(), "8000");
}

#[test]
fn priority() {
    assert!(Priority::HIGH > Priority::NORMAL);
    assert!(Priority::NORMAL > Priority::LOW);
    assert!(Priority::HIGH > Priority::LOW);

    assert_eq!(Priority::HIGH, Priority::HIGH);
    assert_ne!(Priority::HIGH, Priority::NORMAL);

    assert_eq!(Priority::default(), Priority::NORMAL);
}

#[test]
fn priority_duration_multiplication() {
    let high = Span::from_millis(1) * Priority::HIGH;
    let normal = Span::from_millis(1) * Priority::NORMAL;
    let low = Span::from_millis(1) * Priority::LOW;

    assert!(high < normal);
    assert!(normal < low);
    assert!(high < low);
}

#[test]
fn process_equality() {
    let process1 = record(0, Priority::LOW, 0);
    let process2 = record(0, Priority::NORMAL, 0);
    let process3 = record(1, Priority::HIGH, 0);

    // Equality is only based on id alone.
    assert_eq!(process1, process1);
    assert_eq!(process2, process2);
    assert_eq!(process1, process2);

    assert_ne!(process1, process3);
    assert_ne!(process2, process3);
}

#[test]
fn process_ordering() {
    let process1 = record(0, Priority::NORMAL, 10);
    let process2 = record(0, Priority::NORMAL, 11);
    let process3 = record(0, Priority::HIGH, 10);

    // Ordering is based only on runtime and priority.
    assert_eq!(process1.cmp(&process1), Ordering::Equal);
    assert_eq!(process1.cmp(&process2), Ordering::Greater);
    assert_eq!(process1.cmp(&process3), Ordering::Less);

    assert_eq!(process2.cmp(&process1), Ordering::Less);
    assert_eq!(process2.cmp(&process2), Ordering::Equal);
    assert_eq!(process2.cmp(&process3), Ordering::Less);

    assert_eq!(process3.cmp(&process1), Ordering::Greater);
    assert_eq!(process3.cmp(&process2), Ordering::Greater);
    assert_eq!(process3.cmp(&process3), Ordering::Equal);

    let process1 = record(0, Priority::LOW, 0);
    let process2 = record(0, Priority::NORMAL, 0);
    let process3 = record(0, Priority::HIGH, 0);

    // If all the "fair runtimes" are equal we only compare based on the
    // priority.
    assert_eq!(
        process1.runtime() * process1.priority(),
        process2.runtime() * process2.priority()
    );
    assert_eq!(
        process1.runtime() * process1.priority(),
        process3.runtime() * process3.priority()
    );
    assert_eq!(process1.cmp(&process2), Ordering::Less);
    assert_eq!(process1.cmp(&process3), Ordering::Less);
    assert_eq!(process2.cmp(&process3), Ordering::Less);
}
