//! The session handler.
//!
//! The handler decides and the driver acts. On readiness the driver calls
//! [`RawHandler::ready`], performs the read it is handed, and reports the
//! outcome to [`RawHandler::input_read`] or [`RawHandler::output_read`],
//! which return the bytes for the observer. An instruction from the channel
//! goes to [`RawHandler::notify`]; a resize then proceeds step by step, the
//! driver performing each [`ResizeStep`] and passing its result to
//! [`RawHandler::resume`] until no step is left. At the end of every loop
//! iteration the driver reads the resize-signal counter and calls
//! [`RawHandler::tick`], and it calls [`RawHandler::released`] when the
//! readiness poll has returned for good.
use crate::instruction::Instruction;
use crate::loop_state::LoopState;
use crate::winsize::Winsize;
use vstd::prelude::*;
use vstd::slice::slice_subrange;

verus! {

/// Token under which the local input source is registered with the poll.
pub const INPUT: usize = 0;

/// Token under which the child's output source is registered with the poll.
pub const OUTPUT: usize = 1;

/// Most bytes taken from the input source by one read.
pub const INPUT_CHUNK: usize = 128;

/// Most bytes taken from the child's output source by one read.
pub const OUTPUT_CHUNK: usize = 10240;

/// One of the two byte sources of a session.
#[derive(Clone, Copy, Debug, PartialEq, Eq, Structural)]
pub enum Source {
    /// The local input stream.
    Input,
    /// The output of the child's pseudo-terminal.
    Output,
}

/// A read the driver has to perform: at most `capacity` bytes from `source`.
#[derive(Clone, Copy, Debug, PartialEq, Eq, Structural)]
pub struct ReadRequest {
    pub source: Source,
    pub capacity: usize,
}

/// How a read ended.
#[derive(Clone, Copy, Debug, PartialEq, Eq, Structural)]
pub enum ReadOutcome {
    /// The read put this many bytes at the start of the buffer.
    Bytes(usize),
    /// The read failed.
    Failed,
}

impl ReadOutcome {
    /// Whether this outcome, on the child's output, is the end of the stream:
    /// a failed read and an empty one both are.
    pub open spec fn ends_output(self) -> bool {
        self is Failed || self == ReadOutcome::Bytes(0)
    }
}

/// A failure the session cannot recover from. The driver ends the process.
#[derive(Clone, Copy, Debug, PartialEq, Eq, Structural)]
pub enum Fatal {
    /// A read from the local input stream failed.
    InputRead,
    /// The controlling terminal's geometry could not be read.
    GeometryQuery,
    /// The geometry could not be applied to the child's pseudo-terminal.
    GeometryApply,
    /// The driver reported a result that no step in flight was waiting for.
    UnexpectedResult,
}

/// One piece of outside work of a resize. A resize goes through the four
/// steps in this order, and the driver performs each as it is handed out.
#[derive(Clone, Copy, Debug, PartialEq, Eq)]
pub enum ResizeStep {
    /// Read the geometry of the terminal open as `fd`.
    Query { fd: i32 },
    /// Apply `geometry` to the pseudo-terminal open as `fd`.
    Apply { fd: i32, geometry: Winsize },
    /// Hand `geometry` to the observer's resize notification.
    Forward { geometry: Winsize },
    /// Read the resize-signal counter.
    Commit,
}

/// What the driver reports once it has performed a `ResizeStep`.
#[derive(Clone, Copy, Debug, PartialEq, Eq)]
pub enum StepResult {
    /// The geometry that a `Query` read.
    Geometry(Winsize),
    /// An `Apply` or a `Forward` was carried out.
    Done,
    /// The value of the resize-signal counter that a `Commit` read.
    Count(i32),
    /// A `Query` or an `Apply` failed.
    Failed,
}

/// The session's reaction logic: what to do on readiness, on an instruction
/// and on a tick.
#[derive(Clone, Copy, Debug, PartialEq, Eq)]
pub struct RawHandler {
    /// Raw descriptor of the child's pseudo-terminal.
    pub pty: i32,
    /// The value of the resize-signal counter that was last acted upon.
    pub resize_count: i32,
    /// The state of the dispatch loop.
    pub state: LoopState,
    /// The step of a resize in flight that the driver has yet to report on.
    pub pending: Option<ResizeStep>,
}

/// The descriptor of the process's own standard input, which stands for the
/// controlling terminal.
///
/// Trusted, not proved: the body reads the constant `libc::STDIN_FILENO`,
/// and the contract takes its value to be 0, as libc defines it.
#[verifier::external_body]
fn stdin_fileno() -> (fd: i32)
    ensures
        fd == 0,
{
    libc::STDIN_FILENO
}

impl RawHandler {
    /// The read to perform when the poll reports `token`, if any: none
    /// unless the source is readable and the loop is running.
    pub open spec fn read_for(self, token: usize, readable: bool) -> Option<ReadRequest> {
        if !readable || !(self.state is Running) {
            None
        } else if token == INPUT {
            Some(ReadRequest { source: Source::Input, capacity: INPUT_CHUNK })
        } else {
            Some(ReadRequest { source: Source::Output, capacity: OUTPUT_CHUNK })
        }
    }

    /// What a read from the input source hands to the observer: the bytes
    /// read, as they are, or the failure that ends the process.
    pub open spec fn input_chunk(outcome: ReadOutcome, buf: Seq<u8>) -> Result<Seq<u8>, Fatal> {
        match outcome {
            ReadOutcome::Bytes(n) => Ok(buf.subrange(0, n as int)),
            ReadOutcome::Failed => Err(Fatal::InputRead),
        }
    }

    /// What a read from the child's output hands to the observer: the bytes
    /// read, as they are, or nothing at the end of the stream.
    pub open spec fn output_chunk(outcome: ReadOutcome, buf: Seq<u8>) -> Option<Seq<u8>> {
        match outcome {
            ReadOutcome::Bytes(n) => if n == 0 {
                None
            } else {
                Some(buf.subrange(0, n as int))
            },
            ReadOutcome::Failed => None,
        }
    }

    /// The handler after a read from the child's output: the end of the
    /// stream shuts the loop down, anything else changes nothing.
    pub open spec fn after_output_read(self, outcome: ReadOutcome) -> RawHandler {
        if outcome.ends_output() {
            RawHandler { state: self.state.after_shutdown(), ..self }
        } else {
            self
        }
    }

    /// Whether resize signals have arrived that were not acted upon yet,
    /// given the counter's value now.
    pub open spec fn is_stale(self, count: i32) -> bool {
        count > self.resize_count
    }

    /// What a tick puts into the instruction channel, given the counter's
    /// value now.
    pub open spec fn injected(self, count: i32) -> Option<Instruction> {
        if self.is_stale(count) {
            Some(Instruction::Resize)
        } else {
            None
        }
    }

    /// The step that an instruction asks of the driver at once.
    pub open spec fn first_step(message: Instruction) -> Option<ResizeStep> {
        match message {
            Instruction::Shutdown => None,
            Instruction::Resize => Some(ResizeStep::Query { fd: 0 }),
        }
    }

    /// The handler after an instruction has arrived. A shutdown stops a
    /// running loop; a resize starts with the query of the controlling
    /// terminal.
    pub open spec fn after_notify(self, message: Instruction) -> RawHandler {
        match message {
            Instruction::Shutdown => RawHandler { state: self.state.after_shutdown(), ..self },
            Instruction::Resize => RawHandler { pending: Self::first_step(message), ..self },
        }
    }

    /// The answer to a result that the driver reports: the next step of the
    /// resize in flight, `None` when the resize is complete, or the failure
    /// that ends the process.
    pub open spec fn next_step(self, result: StepResult) -> Result<Option<ResizeStep>, Fatal> {
        match (self.pending, result) {
            (Some(ResizeStep::Query { .. }), StepResult::Geometry(geometry)) => Ok(
                Some(ResizeStep::Apply { fd: self.pty, geometry }),
            ),
            (Some(ResizeStep::Query { .. }), StepResult::Failed) => Err(Fatal::GeometryQuery),
            (Some(ResizeStep::Apply { geometry, .. }), StepResult::Done) => Ok(
                Some(ResizeStep::Forward { geometry }),
            ),
            (Some(ResizeStep::Apply { .. }), StepResult::Failed) => Err(Fatal::GeometryApply),
            (Some(ResizeStep::Forward { .. }), StepResult::Done) => Ok(Some(ResizeStep::Commit)),
            (Some(ResizeStep::Commit), StepResult::Count(_)) => Ok(None),
            _ => Err(Fatal::UnexpectedResult),
        }
    }

    /// The handler after the driver has reported a result. The step handed
    /// out is the one in flight from then on; the counter's value becomes
    /// the baseline when, and only when, the last step reports it. A failed
    /// step abandons the resize, and a result that nothing waited for
    /// changes nothing.
    pub open spec fn after_resume(self, result: StepResult) -> RawHandler {
        match self.next_step(result) {
            Ok(step) => RawHandler {
                pending: step,
                resize_count: if let StepResult::Count(count) = result {
                    count
                } else {
                    self.resize_count
                },
                ..self
            },
            Err(Fatal::UnexpectedResult) => self,
            Err(_) => RawHandler { pending: None, ..self },
        }
    }

    /// The handler after the readiness poll has released control.
    pub open spec fn after_release(self) -> RawHandler {
        RawHandler { state: self.state.after_release(), ..self }
    }

    /// A handler for a session whose child runs on the pseudo-terminal open
    /// as `pty`, made while the resize-signal counter stands at `count`. The
    /// loop is running, no resize is in flight, and every signal counted so
    /// far is taken as acted upon.
    pub fn new(pty: i32, count: i32) -> (handler: RawHandler)
        ensures
            handler == (RawHandler {
                pty,
                resize_count: count,
                state: LoopState::Running,
                pending: None,
            }),
    {
        RawHandler { pty, resize_count: count, state: LoopState::Running, pending: None }
    }

    /// Reacts to readiness of the source registered as `token`.
    ///
    /// Returns the read to perform: up to `INPUT_CHUNK` bytes from the input
    /// source, up to `OUTPUT_CHUNK` bytes from the child's output. Nothing is
    /// read unless the source is readable, and nothing once the loop is no
    /// longer running.
    pub fn ready(&self, token: usize, readable: bool) -> (request: Option<ReadRequest>)
        requires
            token == INPUT || token == OUTPUT,
        ensures
            request == self.read_for(token, readable),
    {
        if !readable || !self.state.is_running() {
            None
        } else if token == INPUT {
            Some(ReadRequest { source: Source::Input, capacity: INPUT_CHUNK })
        } else {
            Some(ReadRequest { source: Source::Output, capacity: OUTPUT_CHUNK })
        }
    }

    /// Reacts to the outcome of a read from the input source into `buf`.
    ///
    /// The bytes read go to the observer's input notification as they are,
    /// also when there are none: an empty read does not end the session. A
    /// failed read is fatal.
    pub fn input_read<'a>(&self, outcome: ReadOutcome, buf: &'a [u8]) -> (chunk: Result<
        &'a [u8],
        Fatal,
    >)
        requires
            outcome matches ReadOutcome::Bytes(n) ==> n <= buf@.len(),
        ensures
            match chunk {
                Ok(bytes) => Self::input_chunk(outcome, buf@) == Ok::<Seq<u8>, Fatal>(bytes@),
                Err(fatal) => Self::input_chunk(outcome, buf@) == Err::<Seq<u8>, Fatal>(fatal),
            },
    {
        match outcome {
            ReadOutcome::Bytes(n) => Ok(slice_subrange(buf, 0, n)),
            ReadOutcome::Failed => Err(Fatal::InputRead),
        }
    }

    /// Reacts to the outcome of a read from the child's output into `buf`.
    ///
    /// A failed read and an empty read both mean that the child is gone:
    /// the loop shuts down and the observer is not notified. Otherwise the
    /// bytes read go to the observer's output notification as they are.
    pub fn output_read<'a>(&mut self, outcome: ReadOutcome, buf: &'a [u8]) -> (chunk: Option<
        &'a [u8],
    >)
        requires
            outcome matches ReadOutcome::Bytes(n) ==> n <= buf@.len(),
        ensures
            *final(self) == old(self).after_output_read(outcome),
            match chunk {
                Some(bytes) => Self::output_chunk(outcome, buf@) == Some(bytes@),
                None => Self::output_chunk(outcome, buf@) is None,
            },
    {
        match outcome {
            ReadOutcome::Bytes(n) => {
                if n == 0 {
                    self.state = self.state.shutdown();
                    None
                } else {
                    Some(slice_subrange(buf, 0, n))
                }
            },
            ReadOutcome::Failed => {
                self.state = self.state.shutdown();
                None
            },
        }
    }

    /// Reacts to an instruction from the channel.
    ///
    /// `Shutdown` ends a running loop at once. `Resize` starts a resize and
    /// returns its first step, the query of the controlling terminal's
    /// geometry on the process's standard input; a resize that was in
    /// flight is dropped for the new one.
    pub fn notify(&mut self, message: Instruction) -> (step: Option<ResizeStep>)
        ensures
            *final(self) == old(self).after_notify(message),
            step == Self::first_step(message),
    {
        match message {
            Instruction::Shutdown => {
                self.state = self.state.shutdown();
                None
            },
            Instruction::Resize => {
                let step = Some(ResizeStep::Query { fd: stdin_fileno() });
                self.pending = step;
                step
            },
        }
    }

    /// Takes the result of the step in flight and returns the next one.
    ///
    /// A resize runs in a fixed order. The geometry that the query read is
    /// applied to the child's pseudo-terminal, then handed to the observer,
    /// and only then is the counter read and its value made the baseline.
    /// Signals that arrive while the geometry is applied are therefore still
    /// ahead of the baseline, and the next tick sees them. A query or an
    /// apply that failed is fatal, and so is a result that does not answer
    /// the step in flight.
    pub fn resume(&mut self, result: StepResult) -> (next: Result<Option<ResizeStep>, Fatal>)
        ensures
            *final(self) == old(self).after_resume(result),
            next == old(self).next_step(result),
    {
        match self.pending {
            Some(ResizeStep::Query { .. }) => match result {
                StepResult::Geometry(geometry) => {
                    let step = Some(ResizeStep::Apply { fd: self.pty, geometry });
                    self.pending = step;
                    Ok(step)
                },
                StepResult::Failed => {
                    self.pending = None;
                    Err(Fatal::GeometryQuery)
                },
                _ => Err(Fatal::UnexpectedResult),
            },
            Some(ResizeStep::Apply { geometry, .. }) => match result {
                StepResult::Done => {
                    let step = Some(ResizeStep::Forward { geometry });
                    self.pending = step;
                    Ok(step)
                },
                StepResult::Failed => {
                    self.pending = None;
                    Err(Fatal::GeometryApply)
                },
                _ => Err(Fatal::UnexpectedResult),
            },
            Some(ResizeStep::Forward { .. }) => match result {
                StepResult::Done => {
                    let step = Some(ResizeStep::Commit);
                    self.pending = step;
                    Ok(step)
                },
                _ => Err(Fatal::UnexpectedResult),
            },
            Some(ResizeStep::Commit) => match result {
                StepResult::Count(count) => {
                    self.resize_count = count;
                    self.pending = None;
                    Ok(None)
                },
                _ => Err(Fatal::UnexpectedResult),
            },
            None => Err(Fatal::UnexpectedResult),
        }
    }

    /// Whether the counter, now at `count`, is ahead of the baseline.
    ///
    /// The two are compared as they are. A counter that has wrapped around
    /// is behind the baseline and goes unnoticed until it has passed it
    /// again; at one signal per change of the terminal's size that point is
    /// out of reach in practice.
    pub fn should_resize(&self, count: i32) -> (stale: bool)
        ensures
            stale == self.is_stale(count),
    {
        count > self.resize_count
    }

    /// Reconciles the counter, now at `count`, with the baseline at the end
    /// of a loop iteration.
    ///
    /// Returns the instruction to put into the loop's own channel: one
    /// `Resize` if the counter is ahead of the baseline, however far, and
    /// nothing otherwise. The resize itself is left to the instruction.
    pub fn tick(&self, count: i32) -> (instruction: Option<Instruction>)
        ensures
            instruction == self.injected(count),
    {
        if self.should_resize(count) {
            Some(Instruction::Resize)
        } else {
            None
        }
    }

    /// Records that the readiness poll has released control: a loop that was
    /// shutting down is stopped.
    pub fn released(&mut self)
        ensures
            *final(self) == old(self).after_release(),
    {
        self.state = self.state.release();
    }

    /// Whether the loop still services events.
    pub fn is_running(&self) -> (running: bool)
        ensures
            running == (self.state is Running),
    {
        self.state.is_running()
    }
}

} // verus!
