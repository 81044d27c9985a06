//! What holds of the session across its reactions: the order of a resize,
//! the coalescing of resize signals, the baseline's relation to the counter,
//! and the life of the loop.
use crate::instruction::Instruction;
use crate::raw_handler::{Fatal, RawHandler, ReadOutcome, ResizeStep, StepResult};
use crate::winsize::Winsize;
use vstd::prelude::*;

verus! {

/// The handler once a `Resize` instruction has been processed to its end:
/// the query answered with `geometry`, the apply and the forward carried
/// out, and the counter read as `count`.
pub open spec fn after_resize(handler: RawHandler, geometry: Winsize, count: i32) -> RawHandler {
    handler.after_notify(Instruction::Resize).after_resume(
        StepResult::Geometry(geometry),
    ).after_resume(StepResult::Done).after_resume(StepResult::Done).after_resume(
        StepResult::Count(count),
    )
}

/// A burst of resize signals is answered by one resize. If the baseline is
/// not ahead of the counter at one tick and any number of signals, at least
/// one, arrive before the next, that next tick puts exactly one `Resize`
/// into the channel, and a tick without new signals after a completed resize
/// puts none. The counter is taken not to wrap.
pub proof fn lemma_burst_yields_one_resize(handler: RawHandler, count: i32, signals: int)
    requires
        handler.resize_count <= count,
        signals >= 1,
        count + signals <= i32::MAX,
    ensures
        handler.injected((count + signals) as i32) == Some(Instruction::Resize),
        forall|geometry: Winsize|
            (#[trigger] after_resize(handler, geometry, (count + signals) as i32)).injected(
                (count + signals) as i32,
            ) is None,
{
}

/// A resize applies the geometry that its own query read. Processing a
/// `Resize` hands out, in this order, the query of standard input, the apply
/// of the geometry just read to the child's pseudo-terminal, the forward of
/// the same geometry to the observer, and the read of the counter; the
/// baseline stays where it was until that last step reports.
pub proof fn lemma_resize_runs_in_order(handler: RawHandler, geometry: Winsize, count: i32)
    ensures
        ({
            let querying = handler.after_notify(Instruction::Resize);
            let applying = querying.after_resume(StepResult::Geometry(geometry));
            let forwarding = applying.after_resume(StepResult::Done);
            let committing = forwarding.after_resume(StepResult::Done);
            &&& RawHandler::first_step(Instruction::Resize) == Some(ResizeStep::Query { fd: 0 })
            &&& querying.next_step(StepResult::Geometry(geometry)) == Ok::<
                Option<ResizeStep>,
                Fatal,
            >(Some(ResizeStep::Apply { fd: handler.pty, geometry }))
            &&& applying.next_step(StepResult::Done) == Ok::<Option<ResizeStep>, Fatal>(
                Some(ResizeStep::Forward { geometry }),
            )
            &&& forwarding.next_step(StepResult::Done) == Ok::<Option<ResizeStep>, Fatal>(
                Some(ResizeStep::Commit),
            )
            &&& committing.next_step(StepResult::Count(count)) == Ok::<Option<ResizeStep>, Fatal>(
                None,
            )
            &&& querying.resize_count == handler.resize_count
            &&& applying.resize_count == handler.resize_count
            &&& forwarding.resize_count == handler.resize_count
            &&& committing.resize_count == handler.resize_count
            &&& after_resize(handler, geometry, count) == (RawHandler {
                resize_count: count,
                pending: None,
                ..handler
            })
        }),
{
}

/// The steps of a resize cannot be skipped. A step comes to be in flight
/// only as the successor of the step before it: the query through a `Resize`
/// instruction, the apply through the answer to the query and with the
/// geometry of that answer, the forward through a finished apply of the same
/// geometry, the commit through a finished forward.
pub proof fn lemma_steps_follow_each_other(
    handler: RawHandler,
    message: Instruction,
    result: StepResult,
)
    ensures
        handler.after_notify(message).pending != handler.pending ==> message is Resize
            && handler.after_notify(message).pending == Some(ResizeStep::Query { fd: 0 }),
        ({
            let next = handler.after_resume(result);
            next.pending != handler.pending ==> match next.pending {
                Some(ResizeStep::Query { .. }) => false,
                Some(ResizeStep::Apply { fd, geometry }) => handler.pending is Some
                    && handler.pending->0 is Query && result == StepResult::Geometry(geometry)
                    && fd == handler.pty,
                Some(ResizeStep::Forward { geometry }) => handler.pending is Some
                    && handler.pending->0 is Apply && handler.pending->0->Apply_geometry
                    == geometry && result is Done,
                Some(ResizeStep::Commit) => handler.pending is Some && handler.pending->0 is Forward
                    && result is Done,
                None => handler.pending is Some,
            }
        }),
{
}

/// The baseline moves only when a resize commits. No instruction, read or
/// release touches it, and a reported result changes it only if the step in
/// flight was the commit, to the count that was reported.
pub proof fn lemma_baseline_moves_on_commit_only(
    handler: RawHandler,
    message: Instruction,
    outcome: ReadOutcome,
    result: StepResult,
)
    ensures
        handler.after_notify(message).resize_count == handler.resize_count,
        handler.after_output_read(outcome).resize_count == handler.resize_count,
        handler.after_release().resize_count == handler.resize_count,
        handler.after_resume(result).resize_count != handler.resize_count ==> handler.pending
            == Some(ResizeStep::Commit) && result == StepResult::Count(
            handler.after_resume(result).resize_count,
        ),
{
}

/// The baseline after a resize is the counter's value read while the resize
/// was processed, whatever the value was when a tick saw the signal. With a
/// counter that only grows the baseline does not fall back. A later tick
/// asks for a resize again exactly if a signal has arrived after the counter
/// was read: what was counted by then is settled, what came after is not.
pub proof fn lemma_baseline_is_count_at_processing(
    handler: RawHandler,
    geometry: Winsize,
    count: i32,
)
    ensures
        after_resize(handler, geometry, count).resize_count == count,
        handler.resize_count <= count ==> after_resize(handler, geometry, count).resize_count
            >= handler.resize_count,
        forall|later: i32| #[trigger]
            after_resize(handler, geometry, count).is_stale(later) <==> later > count,
{
}

/// The baseline is never ahead of the counter. If it is not ahead now, and
/// a count that the driver reports is a value the counter has had, it is not
/// ahead after the report either.
pub proof fn lemma_baseline_not_ahead_of_counter(handler: RawHandler, result: StepResult, now: i32)
    requires
        handler.resize_count <= now,
        result matches StepResult::Count(count) ==> count <= now,
    ensures
        handler.after_resume(result).resize_count <= now,
{
}

/// An empty read ends the session on the child's output and never on the
/// input. On the output it shuts a running loop down and nothing reaches the
/// observer; on the input the empty chunk is forwarded like any other.
pub proof fn lemma_empty_read(handler: RawHandler, buf: Seq<u8>)
    ensures
        handler.after_output_read(ReadOutcome::Bytes(0)).state == handler.state.after_shutdown(),
        !(handler.after_output_read(ReadOutcome::Bytes(0)).state is Running),
        RawHandler::output_chunk(ReadOutcome::Bytes(0), buf) is None,
        RawHandler::input_chunk(ReadOutcome::Bytes(0), buf) == Ok::<Seq<u8>, Fatal>(Seq::empty()),
{
    assert(buf.subrange(0, 0) =~= Seq::<u8>::empty());
}

/// A failed read is fatal on the input and the end of the stream on the
/// child's output. On the input it is the failure that ends the process; on
/// the output it does exactly what an empty read does.
pub proof fn lemma_failed_read(handler: RawHandler, buf: Seq<u8>)
    ensures
        RawHandler::input_chunk(ReadOutcome::Failed, buf) == Err::<Seq<u8>, Fatal>(
            Fatal::InputRead,
        ),
        handler.after_output_read(ReadOutcome::Failed) == handler.after_output_read(
            ReadOutcome::Bytes(0),
        ),
        RawHandler::output_chunk(ReadOutcome::Failed, buf) == RawHandler::output_chunk(
            ReadOutcome::Bytes(0),
            buf,
        ),
        !(handler.after_output_read(ReadOutcome::Failed).state is Running),
{
}

/// Only the end of the stream ends the session. A read from the child's
/// output stops a running loop exactly if it failed or brought nothing, and
/// exactly then nothing reaches the observer; any other read forwards its
/// bytes and leaves the handler as it was.
pub proof fn lemma_output_ends_only_at_end_of_stream(
    handler: RawHandler,
    outcome: ReadOutcome,
    buf: Seq<u8>,
)
    requires
        handler.state is Running,
    ensures
        handler.after_output_read(outcome).state is Running <==> !outcome.ends_output(),
        RawHandler::output_chunk(outcome, buf) is Some <==> !outcome.ends_output(),
        !outcome.ends_output() ==> handler.after_output_read(outcome) == handler,
        outcome.ends_output() ==> handler.after_output_read(outcome).state is ShuttingDown,
{
}

/// Nothing leads back to `Running`. Once the loop is not running, no
/// reaction makes it run again, and readiness is answered with no read.
pub proof fn lemma_shutdown_is_final(
    handler: RawHandler,
    message: Instruction,
    outcome: ReadOutcome,
    result: StepResult,
    token: usize,
    readable: bool,
)
    requires
        !(handler.state is Running),
    ensures
        !(handler.after_notify(message).state is Running),
        !(handler.after_output_read(outcome).state is Running),
        !(handler.after_resume(result).state is Running),
        !(handler.after_release().state is Running),
        handler.read_for(token, readable) is None,
{
}

/// A `Shutdown` instruction ends the loop. Whatever the state before, the
/// loop is not running after it and readiness gets no read; a loop that was
/// running is shutting down, and once the poll has released control the loop
/// is stopped.
pub proof fn lemma_shutdown_stops_the_loop(handler: RawHandler, token: usize, readable: bool)
    ensures
        !(handler.after_notify(Instruction::Shutdown).state is Running),
        handler.state is Running ==> handler.after_notify(Instruction::Shutdown).state
            is ShuttingDown,
        handler.after_notify(Instruction::Shutdown).read_for(token, readable) is None,
        handler.after_notify(Instruction::Shutdown).after_release().state is Stopped,
{
}

} // verus!
