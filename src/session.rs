//! The relay of one launched child: which event, if any, each report from
//! the host becomes.
//!
//! The host reads the child's two pipes and waits for its exit on its own
//! tasks, and hands every outcome to the child's `Session` as a `Report`.
//! The session relays each stream's lines in the order they were read until
//! that stream ends or fails, and holds the termination event back until
//! both streams are closed, so that it is the last event of the launch and
//! comes exactly once.
use vstd::prelude::*;
use crate::events::OutputEvent;

verus! {

/// One of the child's two output streams.
#[derive(Debug, Clone, Copy, PartialEq, Eq)]
pub enum Stream {
    Stdout,
    Stderr,
}

/// What the host observed of the child.
#[derive(Debug, Clone, PartialEq, Eq)]
pub enum Report {
    /// A line read from a stream, without its line terminator.
    Line(Stream, String),
    /// The stream reached its end.
    Ended(Stream),
    /// Reading the stream failed; nothing more is relayed from it.
    ReadFailed(Stream),
    /// The child exited, with its numeric exit code where the system has one.
    Exited(Option<i32>),
    /// Waiting for the child failed; its exit code is unknown.
    WaitFailed,
}

/// What a session knows of its child.
#[derive(Debug, Clone, Copy, PartialEq, Eq)]
pub struct RelayState {
    /// Whether lines of standard output are still relayed.
    pub stdout_open: bool,
    /// Whether lines of standard error are still relayed.
    pub stderr_open: bool,
    /// The exit code once the exit is known (`None` inside where the system
    /// gave no code).
    pub exit: Option<Option<i32>>,
    /// Whether the termination event has been given.
    pub terminated: bool,
}

/// The relay of one launched child. Each launch has a session of its own,
/// and only the reports handed to it decide its events.
#[derive(Debug)]
pub struct Session {
    state: RelayState,
}

impl View for Session {
    type V = RelayState;

    closed spec fn view(&self) -> RelayState {
        self.state
    }
}

/// The state of a session that has seen no report.
pub open spec fn initial() -> RelayState {
    RelayState { stdout_open: true, stderr_open: true, exit: None, terminated: false }
}

/// The event a report and a state give, and the state after it.
pub open spec fn step_spec(s: RelayState, rep: Report) -> (RelayState, Option<OutputEvent>) {
    match rep {
        Report::Line(Stream::Stdout, line) => (s, if s.stdout_open {
            Some(OutputEvent::Stdout(line))
        } else {
            None
        }),
        Report::Line(Stream::Stderr, line) => (s, if s.stderr_open {
            Some(OutputEvent::Stderr(line))
        } else {
            None
        }),
        Report::Ended(st) | Report::ReadFailed(st) => {
            let t = match st {
                Stream::Stdout => RelayState { stdout_open: false, ..s },
                Stream::Stderr => RelayState { stderr_open: false, ..s },
            };
            release(t)
        },
        Report::Exited(code) => release(
            if s.exit is None {
                RelayState { exit: Some(code), ..s }
            } else {
                s
            },
        ),
        Report::WaitFailed => release(
            if s.exit is None {
                RelayState { exit: Some(None), ..s }
            } else {
                s
            },
        ),
    }
}

/// Sends the termination event once the exit is known and both streams
/// are closed, unless it was sent before.
pub open spec fn release(s: RelayState) -> (RelayState, Option<OutputEvent>) {
    if !s.terminated && !s.stdout_open && !s.stderr_open && s.exit is Some {
        (RelayState { terminated: true, ..s }, Some(OutputEvent::Terminated(s.exit->Some_0)))
    } else {
        (s, None)
    }
}

/// The state after a sequence of reports, and the events it gave, in order.
pub open spec fn run(reps: Seq<Report>) -> (RelayState, Seq<OutputEvent>)
    decreases reps.len(),
{
    if reps.len() == 0 {
        (initial(), Seq::empty())
    } else {
        let (s, evs) = run(reps.drop_last());
        let (t, e) = step_spec(s, reps.last());
        (t, match e {
            Some(ev) => evs.push(ev),
            None => evs,
        })
    }
}

/// Whether a report closes the given stream.
pub open spec fn closes(rep: Report, st: Stream) -> bool {
    rep == Report::Ended(st) || rep == Report::ReadFailed(st)
}

/// Whether some report of the sequence closes the stream.
pub open spec fn closed(reps: Seq<Report>, st: Stream) -> bool {
    exists|i: int| 0 <= i < reps.len() && closes(#[trigger] reps[i], st)
}

/// The lines reported on a stream before it was first closed, in order.
pub open spec fn lines_before_close(reps: Seq<Report>, st: Stream) -> Seq<String>
    decreases reps.len(),
{
    if reps.len() == 0 {
        Seq::empty()
    } else {
        let prev = lines_before_close(reps.drop_last(), st);
        match reps.last() {
            Report::Line(s, line) => if s == st && !closed(reps.drop_last(), st) {
                prev.push(line)
            } else {
                prev
            },
            _ => prev,
        }
    }
}

/// The exit code of the first exit report, `None` inside for a failed
/// wait; `None` where no exit was reported.
pub open spec fn first_exit(reps: Seq<Report>) -> Option<Option<i32>>
    decreases reps.len(),
{
    if reps.len() == 0 {
        None
    } else {
        let prev = first_exit(reps.drop_last());
        if prev is Some {
            prev
        } else {
            match reps.last() {
                Report::Exited(code) => Some(code),
                Report::WaitFailed => Some(None),
                _ => None,
            }
        }
    }
}

/// The payloads of the line events of one stream, in order.
pub open spec fn stream_lines(evs: Seq<OutputEvent>, st: Stream) -> Seq<String>
    decreases evs.len(),
{
    if evs.len() == 0 {
        Seq::empty()
    } else {
        let prev = stream_lines(evs.drop_last(), st);
        match (evs.last(), st) {
            (OutputEvent::Stdout(line), Stream::Stdout) => prev.push(line),
            (OutputEvent::Stderr(line), Stream::Stderr) => prev.push(line),
            _ => prev,
        }
    }
}

impl Session {
    /// A session for a child that has just been spawned.
    pub fn new() -> (r: Session)
        ensures
            r@ == initial(),
    {
        Session {
            state: RelayState { stdout_open: true, stderr_open: true, exit: None, terminated: false },
        }
    }

    /// Whether the termination event has been given.
    pub fn is_finished(&self) -> (r: bool)
        ensures
            r == self@.terminated,
    {
        self.state.terminated
    }

    /// Takes one report and returns the event to deliver, if any.
    pub fn step(&mut self, report: Report) -> (r: Option<OutputEvent>)
        ensures
            (final(self)@, r) == step_spec(old(self)@, report),
    {
        match report {
            Report::Line(Stream::Stdout, line) => {
                if self.state.stdout_open {
                    Some(OutputEvent::Stdout(line))
                } else {
                    None
                }
            },
            Report::Line(Stream::Stderr, line) => {
                if self.state.stderr_open {
                    Some(OutputEvent::Stderr(line))
                } else {
                    None
                }
            },
            Report::Ended(st) | Report::ReadFailed(st) => {
                match st {
                    Stream::Stdout => self.state.stdout_open = false,
                    Stream::Stderr => self.state.stderr_open = false,
                }
                self.release()
            },
            Report::Exited(code) => {
                if self.state.exit.is_none() {
                    self.state.exit = Some(code);
                }
                self.release()
            },
            Report::WaitFailed => {
                if self.state.exit.is_none() {
                    self.state.exit = Some(None);
                }
                self.release()
            },
        }
    }

    fn release(&mut self) -> (r: Option<OutputEvent>)
        ensures
            (final(self)@, r) == release(old(self)@),
    {
        if !self.state.terminated && !self.state.stdout_open && !self.state.stderr_open {
            match self.state.exit {
                Some(code) => {
                    self.state.terminated = true;
                    Some(OutputEvent::Terminated(code))
                },
                None => None,
            }
        } else {
            None
        }
    }
}

/// The number of termination events among the events.
pub open spec fn terminations(evs: Seq<OutputEvent>) -> nat
    decreases evs.len(),
{
    if evs.len() == 0 {
        0
    } else {
        terminations(evs.drop_last()) + if evs.last() is Terminated {
            1nat
        } else {
            0nat
        }
    }
}

/// The state a sequence of reports leads to, stated directly.
pub open spec fn state_after(reps: Seq<Report>) -> RelayState {
    RelayState {
        stdout_open: !closed(reps, Stream::Stdout),
        stderr_open: !closed(reps, Stream::Stderr),
        exit: first_exit(reps),
        terminated: closed(reps, Stream::Stdout) && closed(reps, Stream::Stderr)
            && first_exit(reps) is Some,
    }
}

proof fn lemma_closed_last(reps: Seq<Report>, st: Stream)
    requires
        reps.len() > 0,
    ensures
        closed(reps, st) == (closed(reps.drop_last(), st) || closes(reps.last(), st)),
{
    let prev = reps.drop_last();
    if closed(reps, st) {
        let i = choose|i: int| 0 <= i < reps.len() && closes(#[trigger] reps[i], st);
        if i < prev.len() {
            assert(closes(prev[i], st));
        }
    }
    if closed(prev, st) {
        let i = choose|i: int| 0 <= i < prev.len() && closes(#[trigger] prev[i], st);
        assert(closes(reps[i], st));
    }
    if closes(reps.last(), st) {
        assert(closes(reps[reps.len() - 1], st));
    }
}

/// The state after a sequence of reports: a stream stays relayed until a
/// report ends or fails it, the exit code is that of the first exit report,
/// and the termination event has been given exactly when both streams are
/// closed and the exit is known.
pub proof fn lemma_state_after(reps: Seq<Report>)
    ensures
        run(reps).0 == state_after(reps),
    decreases reps.len(),
{
    if reps.len() > 0 {
        lemma_state_after(reps.drop_last());
        lemma_closed_last(reps, Stream::Stdout);
        lemma_closed_last(reps, Stream::Stderr);
    }
}

/// Each stream's lines reach the front end in the order they were read,
/// whatever the other stream and the exit do in between: the line events of
/// a stream are exactly the lines reported on it before it ended or failed.
pub proof fn lemma_stream_order(reps: Seq<Report>, st: Stream)
    ensures
        stream_lines(run(reps).1, st) == lines_before_close(reps, st),
    decreases reps.len(),
{
    if reps.len() > 0 {
        let prev = reps.drop_last();
        lemma_stream_order(prev, st);
        lemma_state_after(prev);
        let (s, evs) = run(prev);
        let (t, e) = step_spec(s, reps.last());
        if let Some(ev) = e {
            assert(evs.push(ev).drop_last() =~= evs);
        }
    }
}

/// The termination event comes at most once, exactly when both streams are
/// closed and the exit is known, carries the code of the first exit report,
/// and no event follows it.
pub proof fn lemma_terminated_once(reps: Seq<Report>)
    ensures
        terminations(run(reps).1) == if state_after(reps).terminated {
            1nat
        } else {
            0nat
        },
        forall|i: int|
            0 <= i < run(reps).1.len() && (#[trigger] run(reps).1[i]) is Terminated ==> i
                == run(reps).1.len() - 1 && run(reps).1[i] == OutputEvent::Terminated(
                first_exit(reps)->Some_0,
            ),
    decreases reps.len(),
{
    lemma_state_after(reps);
    if reps.len() > 0 {
        let prev = reps.drop_last();
        lemma_terminated_once(prev);
        lemma_state_after(prev);
        let (s, evs) = run(prev);
        let (t, e) = step_spec(s, reps.last());
        if let Some(ev) = e {
            assert(evs.push(ev).drop_last() =~= evs);
            assert(!s.terminated);
            assert(terminations(evs) == 0);
            assert forall|i: int|
                0 <= i < evs.len() implies !(#[trigger] evs[i] is Terminated) by {}
        }
    }
}

} // verus!
