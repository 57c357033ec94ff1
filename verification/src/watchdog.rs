//! The deadlock watchdog: what it polls and what it reports.

use vstd::prelude::*;

verus! {

/// The seconds that the watchdog sleeps between two polls.
pub const WATCHDOG_INTERVAL_SECS: u64 = 10;

/// A thread that is part of a deadlock: the system's id of the thread, and its
/// call stack as text.
#[derive(Clone, Debug, PartialEq, Eq)]
pub struct DeadlockedThread {
    pub thread_id: usize,
    pub backtrace: String,
}

/// One line of the watchdog's report.
#[derive(Clone, Debug, PartialEq, Eq)]
pub enum ReportLine {
    /// The head of a report: the number of deadlocks that the poll found.
    Detected(usize),
    /// The head of one deadlock: its number, counted from zero.
    Deadlock(usize),
    /// The system's id of a thread in the deadlock.
    ThreadId(usize),
    /// The call stack of that thread.
    Backtrace(String),
}

/// The lines that name the threads of one deadlock: for each thread its id,
/// then its call stack.
pub open spec fn thread_lines(threads: Seq<DeadlockedThread>) -> Seq<ReportLine>
    decreases threads.len(),
{
    if threads.len() == 0 {
        Seq::empty()
    } else {
        thread_lines(threads.drop_last()).push(ReportLine::ThreadId(threads.last().thread_id)).push(
            ReportLine::Backtrace(threads.last().backtrace),
        )
    }
}

/// The lines of all deadlocks, one after the other: for each its head, then
/// its threads.
pub open spec fn deadlock_lines(deadlocks: Seq<Vec<DeadlockedThread>>) -> Seq<ReportLine>
    decreases deadlocks.len(),
{
    if deadlocks.len() == 0 {
        Seq::empty()
    } else {
        deadlock_lines(deadlocks.drop_last()).push(
            ReportLine::Deadlock((deadlocks.len() - 1) as usize),
        ) + thread_lines(deadlocks.last()@)
    }
}

/// The report on what a poll found: nothing where it found no deadlock, else
/// the number of deadlocks and then each of them.
pub open spec fn report_lines(deadlocks: Seq<Vec<DeadlockedThread>>) -> Seq<ReportLine> {
    if deadlocks.len() == 0 {
        Seq::empty()
    } else {
        seq![ReportLine::Detected(deadlocks.len() as usize)] + deadlock_lines(deadlocks)
    }
}

/// Asks `parking_lot::deadlock::check_deadlock` for the lock cycles that have
/// appeared since it was last asked, and copies out of each deadlocked thread
/// its id and, as text, its call stack. Nothing is claimed of what comes back:
/// it depends on what the process's threads are doing.
#[verifier::external_body]
fn check_deadlock() -> (deadlocks: Vec<Vec<DeadlockedThread>>) {
    parking_lot::deadlock::check_deadlock().iter().map(
        |threads|
            threads.iter().map(
                |t|
                    DeadlockedThread {
                        thread_id: t.thread_id(),
                        backtrace: format!("{:#?}", t.backtrace()),
                    },
            ).collect(),
    ).collect()
}

/// Appends to `lines` the lines that name the threads of one deadlock.
fn push_thread_lines(lines: &mut Vec<ReportLine>, threads: &Vec<DeadlockedThread>)
    ensures
        final(lines)@ == old(lines)@ + thread_lines(threads@),
{
    let ghost start = lines@;
    let mut j: usize = 0;
    assert(threads@.take(0) =~= Seq::<DeadlockedThread>::empty());
    assert(start + thread_lines(threads@.take(0)) =~= start);
    while j < threads.len()
        invariant
            j <= threads@.len(),
            lines@ == start + thread_lines(threads@.take(j as int)),
        decreases threads@.len() - j,
    {
        let thread = &threads[j];
        lines.push(ReportLine::ThreadId(thread.thread_id));
        lines.push(ReportLine::Backtrace(thread.backtrace.clone()));
        proof {
            let done = threads@.take(j as int);
            let more = threads@.take(j + 1);
            assert(more.drop_last() =~= done);
            assert(more.last() == threads@[j as int]);
            assert(start + thread_lines(more) =~= (start + thread_lines(done)).push(
                ReportLine::ThreadId(thread.thread_id),
            ).push(ReportLine::Backtrace(thread.backtrace)));
        }
        j += 1;
    }
    assert(threads@.take(threads@.len() as int) =~= threads@);
}

/// The watchdog's report on what a poll found: nothing where it found no
/// deadlock; else the number of deadlocks, and for each of them its number
/// and every thread in it, by id and call stack.
pub fn deadlock_report(deadlocks: &Vec<Vec<DeadlockedThread>>) -> (lines: Vec<ReportLine>)
    ensures
        lines@ == report_lines(deadlocks@),
{
    let mut lines: Vec<ReportLine> = Vec::new();
    if deadlocks.len() == 0 {
        return lines;
    }
    lines.push(ReportLine::Detected(deadlocks.len()));
    let ghost head = lines@;
    let mut i: usize = 0;
    assert(deadlocks@.take(0) =~= Seq::<Vec<DeadlockedThread>>::empty());
    assert(head + deadlock_lines(deadlocks@.take(0)) =~= head);
    while i < deadlocks.len()
        invariant
            i <= deadlocks@.len(),
            head == seq![ReportLine::Detected(deadlocks@.len() as usize)],
            lines@ == head + deadlock_lines(deadlocks@.take(i as int)),
        decreases deadlocks@.len() - i,
    {
        lines.push(ReportLine::Deadlock(i));
        push_thread_lines(&mut lines, &deadlocks[i]);
        proof {
            let done = deadlocks@.take(i as int);
            let more = deadlocks@.take(i + 1);
            assert(more.drop_last() =~= done);
            assert(more.last() == deadlocks@[i as int]);
            assert(head + deadlock_lines(more) =~= (head + deadlock_lines(done)).push(
                ReportLine::Deadlock(i),
            ) + thread_lines(deadlocks@[i as int]@));
        }
        i += 1;
    }
    assert(deadlocks@.take(deadlocks@.len() as int) =~= deadlocks@);
    lines
}

/// One poll of the watchdog: asks the lock implementation for the lock cycles
/// that have appeared since the last poll, and reports them. The report is
/// that of some list of deadlocks, whatever the process's threads are doing;
/// it is empty where there was none.
pub fn watchdog_poll() -> (lines: Vec<ReportLine>)
    ensures
        exists|deadlocks: Seq<Vec<DeadlockedThread>>| lines@ == report_lines(deadlocks),
{
    let deadlocks = check_deadlock();
    deadlock_report(&deadlocks)
}

/// The lines of a deadlock's threads name each of its threads, by id and by
/// call stack.
proof fn lemma_thread_lines_name(threads: Seq<DeadlockedThread>, j: int)
    requires
        0 <= j < threads.len(),
    ensures
        thread_lines(threads).contains(ReportLine::ThreadId(threads[j].thread_id)),
        thread_lines(threads).contains(ReportLine::Backtrace(threads[j].backtrace)),
    decreases threads.len(),
{
    let lines = thread_lines(threads);
    let earlier = thread_lines(threads.drop_last());
    if j == threads.len() - 1 {
        assert(lines[lines.len() - 2] == ReportLine::ThreadId(threads[j].thread_id));
        assert(lines[lines.len() - 1] == ReportLine::Backtrace(threads[j].backtrace));
    } else {
        lemma_thread_lines_name(threads.drop_last(), j);
        let a = choose|a: int|
            0 <= a < earlier.len() && earlier[a] == ReportLine::ThreadId(threads[j].thread_id);
        assert(lines[a] == earlier[a]);
        let b = choose|b: int|
            0 <= b < earlier.len() && earlier[b] == ReportLine::Backtrace(threads[j].backtrace);
        assert(lines[b] == earlier[b]);
    }
}

/// The lines of all deadlocks hold, for each deadlock, its head and the lines
/// of its threads.
proof fn lemma_deadlock_lines_hold(deadlocks: Seq<Vec<DeadlockedThread>>, i: int)
    requires
        0 <= i < deadlocks.len() <= usize::MAX,
    ensures
        deadlock_lines(deadlocks).contains(ReportLine::Deadlock(i as usize)),
        forall|line: ReportLine|
            thread_lines(deadlocks[i]@).contains(line) ==> deadlock_lines(deadlocks).contains(line),
    decreases deadlocks.len(),
{
    let lines = deadlock_lines(deadlocks);
    let earlier = deadlock_lines(deadlocks.drop_last());
    let last = thread_lines(deadlocks.last()@);
    assert(lines == earlier.push(ReportLine::Deadlock((deadlocks.len() - 1) as usize)) + last);
    if i == deadlocks.len() - 1 {
        assert(lines[earlier.len() as int] == ReportLine::Deadlock(i as usize));
        assert forall|line: ReportLine| last.contains(line) implies lines.contains(line) by {
            let k = choose|k: int| 0 <= k < last.len() && last[k] == line;
            assert(lines[earlier.len() + 1 + k] == line);
        }
    } else {
        lemma_deadlock_lines_hold(deadlocks.drop_last(), i);
        let a = choose|a: int|
            0 <= a < earlier.len() && earlier[a] == ReportLine::Deadlock(i as usize);
        assert(lines[a] == earlier[a]);
        assert forall|line: ReportLine|
            thread_lines(deadlocks[i]@).contains(line) implies lines.contains(line) by {
            assert(earlier.contains(line));
            let k = choose|k: int| 0 <= k < earlier.len() && earlier[k] == line;
            assert(lines[k] == line);
        }
    }
}

/// Whenever a poll finds deadlocks, the report says so: it opens with their
/// number, and for each of them it holds the deadlock's head and, for every
/// thread in it, the thread's id and its call stack.
pub proof fn lemma_report_names_every_deadlock(
    deadlocks: Seq<Vec<DeadlockedThread>>,
    i: int,
    j: int,
)
    requires
        0 <= i < deadlocks.len() <= usize::MAX,
        0 <= j < deadlocks[i]@.len(),
    ensures
        report_lines(deadlocks).len() > 0,
        report_lines(deadlocks)[0] == ReportLine::Detected(deadlocks.len() as usize),
        report_lines(deadlocks).contains(ReportLine::Deadlock(i as usize)),
        report_lines(deadlocks).contains(ReportLine::ThreadId(deadlocks[i]@[j].thread_id)),
        report_lines(deadlocks).contains(ReportLine::Backtrace(deadlocks[i]@[j].backtrace)),
{
    let report = report_lines(deadlocks);
    let body = deadlock_lines(deadlocks);
    lemma_deadlock_lines_hold(deadlocks, i);
    lemma_thread_lines_name(deadlocks[i]@, j);
    assert forall|line: ReportLine| body.contains(line) implies report.contains(line) by {
        let k = choose|k: int| 0 <= k < body.len() && body[k] == line;
        assert(report[k + 1] == line);
    }
}

} // verus!
