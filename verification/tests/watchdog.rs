use lapce_shell::watchdog::{
    deadlock_report, watchdog_poll, DeadlockedThread, ReportLine, WATCHDOG_INTERVAL_SECS,
};

fn thread_of(thread_id: usize, backtrace: &str) -> DeadlockedThread {
    DeadlockedThread { thread_id, backtrace: backtrace.to_string() }
}

#[test]
fn no_deadlock_gives_no_report() {
    assert_eq!(deadlock_report(&Vec::new()), Vec::new());
}

#[test]
fn one_deadlock_of_two_threads() {
    let deadlocks = vec![vec![thread_of(11, "stack of 11"), thread_of(12, "stack of 12")]];
    assert_eq!(
        deadlock_report(&deadlocks),
        vec![
            ReportLine::Detected(1),
            ReportLine::Deadlock(0),
            ReportLine::ThreadId(11),
            ReportLine::Backtrace("stack of 11".to_string()),
            ReportLine::ThreadId(12),
            ReportLine::Backtrace("stack of 12".to_string()),
        ]
    );
}

#[test]
fn several_deadlocks_are_numbered_from_zero() {
    let deadlocks = vec![
        vec![thread_of(1, "a"), thread_of(2, "b")],
        vec![],
        vec![thread_of(3, "c"), thread_of(4, "d"), thread_of(5, "e")],
    ];
    assert_eq!(
        deadlock_report(&deadlocks),
        vec![
            ReportLine::Detected(3),
            ReportLine::Deadlock(0),
            ReportLine::ThreadId(1),
            ReportLine::Backtrace("a".to_string()),
            ReportLine::ThreadId(2),
            ReportLine::Backtrace("b".to_string()),
            ReportLine::Deadlock(1),
            ReportLine::Deadlock(2),
            ReportLine::ThreadId(3),
            ReportLine::Backtrace("c".to_string()),
            ReportLine::ThreadId(4),
            ReportLine::Backtrace("d".to_string()),
            ReportLine::ThreadId(5),
            ReportLine::Backtrace("e".to_string()),
        ]
    );
}

#[test]
fn the_watchdog_polls_every_ten_seconds() {
    assert_eq!(WATCHDOG_INTERVAL_SECS, 10);
}

#[test]
fn a_process_without_lock_cycles_has_nothing_to_report() {
    let held = parking_lot::Mutex::new(0u32);
    {
        let mut guard = held.lock();
        *guard += 1;
        assert_eq!(watchdog_poll(), Vec::new());
    }
    assert_eq!(*held.lock(), 1);
    assert_eq!(watchdog_poll(), Vec::new());
}
