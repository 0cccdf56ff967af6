//! The decisions of the read, transform and write loop, as a state machine:
//! the driver performs each action and reports what came of it as an event.
use vstd::prelude::*;

verus! {

#[derive(Clone, Copy, Debug, PartialEq, Eq, Structural)]
pub enum RunState {
    /// Constructed; nothing written yet.
    Idle,
    /// Header written; chunks are being read, transformed and written.
    Running,
    /// The source reported end of stream.
    Drained,
    /// A fatal condition ended the run.
    Failed,
}

#[derive(Clone, Copy, Debug, PartialEq, Eq, Structural)]
pub enum Event {
    /// Source and sink are open.
    Begin,
    /// The read was interrupted and may be retried.
    Interrupted,
    /// The source reported end of stream.
    EndOfStream,
    /// A chunk of this many bytes was read and folded through the stages;
    /// `accepted` is false where a stage refused its buffer.
    Processed { bytes: u64, accepted: bool },
    /// The pending header or samples were written.
    Written,
    /// A read, write or open failed with anything but an interruption.
    IoFailed,
}

#[derive(Clone, Copy, Debug, PartialEq, Eq, Structural)]
pub enum Action {
    WriteHeader,
    ReadChunk,
    WriteSamples,
    Report,
    Abort,
    Nothing,
}

/// The state of a run and the number of bytes consumed so far.
#[derive(Clone, Copy, Debug, PartialEq, Eq, Structural)]
pub struct Run {
    pub state: RunState,
    pub bytes_read: u64,
}

/// Whether the run has ended.
pub open spec fn is_terminal(s: RunState) -> bool {
    s == RunState::Drained || s == RunState::Failed
}

/// The run after `e`, and what the driver does next.
pub open spec fn next_spec(run: Run, e: Event) -> (Run, Action) {
    let at = |s: RunState| Run { state: s, bytes_read: run.bytes_read };
    match (run.state, e) {
        (RunState::Idle, Event::Begin) => (at(RunState::Running), Action::WriteHeader),
        (RunState::Idle, Event::IoFailed) => (at(RunState::Failed), Action::Abort),
        (RunState::Running, Event::Interrupted) => (run, Action::ReadChunk),
        (RunState::Running, Event::Written) => (run, Action::ReadChunk),
        (RunState::Running, Event::EndOfStream) => (at(RunState::Drained), Action::Report),
        (RunState::Running, Event::IoFailed) => (at(RunState::Failed), Action::Abort),
        (RunState::Running, Event::Processed { bytes, accepted }) => if accepted {
            (Run {
                state: RunState::Running,
                bytes_read: if run.bytes_read + bytes > u64::MAX { u64::MAX } else { (run.bytes_read + bytes) as u64 },
            }, Action::WriteSamples)
        } else {
            (at(RunState::Failed), Action::Abort)
        },
        _ => (run, Action::Nothing),
    }
}

impl Run {
    /// A run that has not started.
    pub fn new() -> (r: Run)
        ensures
            r.state == RunState::Idle,
            r.bytes_read == 0,
    {
        Run { state: RunState::Idle, bytes_read: 0 }
    }

    /// Takes one event; returns the action it calls for.
    pub fn step(&mut self, e: Event) -> (a: Action)
        ensures
            (*final(self), a) == next_spec(*old(self), e),
    {
        let (next, a) = match (self.state, e) {
            (RunState::Idle, Event::Begin) => (Run { state: RunState::Running, ..*self }, Action::WriteHeader),
            (RunState::Idle, Event::IoFailed) => (Run { state: RunState::Failed, ..*self }, Action::Abort),
            (RunState::Running, Event::Interrupted) => (*self, Action::ReadChunk),
            (RunState::Running, Event::Written) => (*self, Action::ReadChunk),
            (RunState::Running, Event::EndOfStream) => (Run { state: RunState::Drained, ..*self }, Action::Report),
            (RunState::Running, Event::IoFailed) => (Run { state: RunState::Failed, ..*self }, Action::Abort),
            (RunState::Running, Event::Processed { bytes, accepted }) => if accepted {
                (Run { state: RunState::Running, bytes_read: self.bytes_read.saturating_add(bytes) }, Action::WriteSamples)
            } else {
                (Run { state: RunState::Failed, ..*self }, Action::Abort)
            },
            _ => (*self, Action::Nothing),
        };
        *self = next;
        a
    }
}

/// A chunk that a stage refused ends the run at once: nothing of it is
/// written, and no later event leads to a write or leaves the failed state.
pub proof fn lemma_refused_chunk_writes_nothing(run: Run, bytes: u64, later: Event)
    requires
        run.state == RunState::Running,
    ensures
        next_spec(run, Event::Processed { bytes, accepted: false }).0.state == RunState::Failed,
        next_spec(run, Event::Processed { bytes, accepted: false }).1 == Action::Abort,
        next_spec(next_spec(run, Event::Processed { bytes, accepted: false }).0, later).0.state == RunState::Failed,
        next_spec(next_spec(run, Event::Processed { bytes, accepted: false }).0, later).1 == Action::Nothing,
{
}

/// A run that has ended stays as it is and asks for nothing more.
pub proof fn lemma_terminal_absorbs(run: Run, e: Event)
    requires
        is_terminal(run.state),
    ensures
        next_spec(run, e) == (run, Action::Nothing),
{
}

} // verus!
