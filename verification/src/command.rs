//! UI commands and the sink that carries them to the GUI thread.

use crate::window::WindowIdentity;
use std::collections::VecDeque;
use vstd::prelude::*;

verus! {

/// What a background thread may ask of the user interface.
#[derive(Clone, Debug, PartialEq, Eq)]
pub enum LapceUICommand {
    /// Open the file at this path.
    OpenFile(String),
}

/// Where a command goes.
#[derive(Clone, Copy, Debug, PartialEq, Eq, Structural)]
pub enum Target {
    /// Every open window.
    Global,
    /// One window.
    Window(WindowIdentity),
}

/// A command on its way to the GUI thread, with its target.
#[derive(Clone, Debug, PartialEq, Eq)]
pub struct Submission {
    pub command: LapceUICommand,
    pub target: Target,
}

/// What a sink is, to its senders and to the GUI thread.
pub struct SinkView {
    /// Whether the GUI thread is still there to take commands.
    pub open: bool,
    /// The commands that were accepted and not taken yet, the oldest first.
    pub pending: Seq<Submission>,
}

impl SinkView {
    /// The sink after a sender has submitted `submission`. An open sink puts
    /// it behind everything that is pending; a closed one drops it.
    pub open spec fn submit(self, submission: Submission) -> SinkView {
        if self.open {
            SinkView { open: true, pending: self.pending.push(submission) }
        } else {
            self
        }
    }

    /// The sink after its senders have submitted `submissions`, one after the
    /// other.
    pub open spec fn submit_all(self, submissions: Seq<Submission>) -> SinkView
        decreases submissions.len(),
    {
        if submissions.len() == 0 {
            self
        } else {
            self.submit_all(submissions.drop_last()).submit(submissions.last())
        }
    }

    /// What the GUI thread takes next: the oldest pending command of an open
    /// sink.
    pub open spec fn next(self) -> Option<Submission> {
        if self.open && self.pending.len() > 0 {
            Some(self.pending[0])
        } else {
            None
        }
    }

    /// The sink after the GUI thread has taken its next command.
    pub open spec fn after_next(self) -> SinkView {
        if self.open && self.pending.len() > 0 {
            SinkView { open: true, pending: self.pending.subrange(1, self.pending.len() as int) }
        } else {
            self
        }
    }

    /// What the GUI thread observes when it takes `count` commands, one after
    /// the other: the commands it got, in the order in which it got them.
    pub open spec fn observe(self, count: nat) -> Seq<Submission>
        decreases count,
    {
        if count == 0 {
            Seq::empty()
        } else {
            match self.next() {
                Some(submission) => seq![submission] + self.after_next().observe(
                    (count - 1) as nat,
                ),
                None => Seq::empty(),
            }
        }
    }

    /// The sink after the GUI thread has terminated: it is closed, and what was
    /// pending is lost.
    pub open spec fn shut_down(self) -> SinkView {
        SinkView { open: false, pending: Seq::empty() }
    }
}

/// The one channel on which background threads hand commands to the GUI
/// thread. Any thread may submit; only the GUI thread takes. A command is
/// delivered at most once, and never after the GUI thread has terminated.
pub struct UiCommandSink {
    open: bool,
    queue: VecDeque<Submission>,
}

impl View for UiCommandSink {
    type V = SinkView;

    closed spec fn view(&self) -> SinkView {
        SinkView {
            open: self.open,
            pending: if self.open {
                self.queue@
            } else {
                Seq::empty()
            },
        }
    }
}

impl UiCommandSink {
    /// An open sink with nothing pending.
    pub fn new() -> (sink: UiCommandSink)
        ensures
            sink@ == (SinkView { open: true, pending: Seq::empty() }),
    {
        UiCommandSink { open: true, queue: VecDeque::new() }
    }

    /// Whether the GUI thread is still there to take commands.
    pub fn is_open(&self) -> (open: bool)
        ensures
            open == self@.open,
    {
        self.open
    }

    /// The number of commands that were accepted and not taken yet.
    pub fn pending(&self) -> (count: usize)
        ensures
            count == self@.pending.len(),
    {
        if self.open {
            self.queue.len()
        } else {
            0
        }
    }

    /// Hands `command` for `target` to the GUI thread. It returns at once and
    /// reports nothing: an open sink puts the command behind everything that
    /// is pending, a closed one drops it.
    pub fn submit(&mut self, command: LapceUICommand, target: Target)
        ensures
            final(self)@ == old(self)@.submit(Submission { command, target }),
    {
        if self.open {
            self.queue.push_back(Submission { command, target });
        }
    }

    /// Takes the oldest pending command, for the GUI thread to carry out.
    pub fn next_command(&mut self) -> (taken: Option<Submission>)
        ensures
            taken == old(self)@.next(),
            final(self)@ == old(self)@.after_next(),
    {
        if !self.open {
            return None;
        }
        self.queue.pop_front()
    }

    /// Closes the sink when the GUI thread terminates. What was pending is
    /// dropped, and so is everything submitted from now on.
    pub fn shut_down(&mut self)
        ensures
            final(self)@ == old(self)@.shut_down(),
    {
        self.open = false;
        self.queue.clear();
    }
}

/// What happens at a sink: a sender submits, or the GUI thread takes.
pub enum SinkEvent {
    Submit(Submission),
    Take,
}

impl SinkView {
    /// The sink after `events` have happened at it, one after the other.
    pub open spec fn run(self, events: Seq<SinkEvent>) -> SinkView
        decreases events.len(),
    {
        if events.len() == 0 {
            self
        } else {
            let before = self.run(events.drop_last());
            match events.last() {
                SinkEvent::Submit(submission) => before.submit(submission),
                SinkEvent::Take => before.after_next(),
            }
        }
    }

    /// The commands that the GUI thread got while `events` happened, in the
    /// order in which it got them.
    pub open spec fn taken(self, events: Seq<SinkEvent>) -> Seq<Submission>
        decreases events.len(),
    {
        if events.len() == 0 {
            Seq::empty()
        } else {
            let before = self.run(events.drop_last());
            let earlier = self.taken(events.drop_last());
            match events.last() {
                SinkEvent::Submit(_) => earlier,
                SinkEvent::Take => match before.next() {
                    Some(submission) => earlier.push(submission),
                    None => earlier,
                },
            }
        }
    }
}

/// The commands that were submitted while `events` happened, in the order in
/// which they were submitted.
pub open spec fn submitted(events: Seq<SinkEvent>) -> Seq<Submission>
    decreases events.len(),
{
    if events.len() == 0 {
        Seq::empty()
    } else {
        match events.last() {
            SinkEvent::Submit(submission) => submitted(events.drop_last()).push(submission),
            SinkEvent::Take => submitted(events.drop_last()),
        }
    }
}

/// An open sink stays open whatever is submitted, and holds the submitted
/// commands behind what was pending, in the order of submission.
pub proof fn lemma_submit_all_appends(sink: SinkView, submissions: Seq<Submission>)
    requires
        sink.open,
    ensures
        sink.submit_all(submissions) == (SinkView {
            open: true,
            pending: sink.pending + submissions,
        }),
    decreases submissions.len(),
{
    if submissions.len() == 0 {
        assert(sink.pending + submissions =~= sink.pending);
    } else {
        lemma_submit_all_appends(sink, submissions.drop_last());
        assert(sink.pending + submissions =~= (sink.pending + submissions.drop_last()).push(
            submissions.last(),
        ));
    }
}

/// The GUI thread, taking as many commands as an open sink holds, gets them
/// all, the oldest first.
pub proof fn lemma_observe_takes_oldest_first(sink: SinkView)
    requires
        sink.open,
    ensures
        sink.observe(sink.pending.len()) == sink.pending,
    decreases sink.pending.len(),
{
    if sink.pending.len() > 0 {
        let rest = sink.after_next();
        lemma_observe_takes_oldest_first(rest);
        assert(seq![sink.pending[0]] + rest.pending =~= sink.pending);
    } else {
        assert(sink.pending =~= Seq::<Submission>::empty());
    }
}

/// Commands submitted to an open sink with nothing pending are observed by
/// the GUI thread in the order in which they were submitted.
pub proof fn lemma_submissions_observed_in_order(sink: SinkView, submissions: Seq<Submission>)
    requires
        sink.open,
        sink.pending.len() == 0,
    ensures
        sink.submit_all(submissions).observe(submissions.len()) == submissions,
{
    lemma_submit_all_appends(sink, submissions);
    assert(sink.pending + submissions =~= submissions);
    lemma_observe_takes_oldest_first(sink.submit_all(submissions));
}

/// However submitting and taking alternate at an open sink: what the GUI
/// thread has got, followed by what is still pending, is what was pending at
/// the start followed by what was submitted, each in its order. So no command
/// is got twice, none overtakes an earlier one, and none is made up.
pub proof fn lemma_sink_is_first_in_first_out(sink: SinkView, events: Seq<SinkEvent>)
    requires
        sink.open,
    ensures
        sink.run(events).open,
        sink.taken(events) + sink.run(events).pending == sink.pending + submitted(events),
    decreases events.len(),
{
    if events.len() == 0 {
        assert(sink.taken(events) + sink.run(events).pending =~= sink.pending + submitted(events));
    } else {
        let earlier = events.drop_last();
        lemma_sink_is_first_in_first_out(sink, earlier);
        let before = sink.run(earlier);
        assert(sink.taken(earlier) + before.pending == sink.pending + submitted(earlier));
        match events.last() {
            SinkEvent::Submit(submission) => {
                assert(sink.taken(events) + sink.run(events).pending =~= (sink.taken(earlier)
                    + before.pending).push(submission));
                assert(sink.pending + submitted(events) =~= (sink.pending + submitted(
                    earlier,
                )).push(submission));
            },
            SinkEvent::Take => {
                if before.pending.len() > 0 {
                    assert(sink.taken(events) + sink.run(events).pending =~= sink.taken(earlier)
                        + before.pending);
                }
            },
        }
    }
}

/// A closed sink drops whatever is submitted to it: it stays as it is, and
/// the GUI thread gets nothing from it.
pub proof fn lemma_closed_sink_drops_submissions(sink: SinkView, submissions: Seq<Submission>)
    requires
        !sink.open,
    ensures
        sink.submit_all(submissions) == sink,
        sink.submit_all(submissions).next() is None,
    decreases submissions.len(),
{
    if submissions.len() > 0 {
        lemma_closed_sink_drops_submissions(sink, submissions.drop_last());
    }
}

/// Once the GUI thread has terminated, nothing that is submitted is ever
/// delivered.
pub proof fn lemma_nothing_is_delivered_after_shut_down(
    sink: SinkView,
    submissions: Seq<Submission>,
)
    ensures
        sink.shut_down().submit_all(submissions) == sink.shut_down(),
        sink.shut_down().submit_all(submissions).next() is None,
{
    lemma_closed_sink_drops_submissions(sink.shut_down(), submissions);
}

} // verus!
