//! What holds of every run of an invocation.
//!
//! A run is any sequence of calls on one invocation, in the order in which
//! the embedding program serialised them. The theorems here speak of all
//! runs at once: what the caller polls is what the child printed, what the
//! child reads is what the caller sent, the phases are passed in order, and
//! shutting down never waits for input.

use crate::error::BridgeError;
use crate::invocation::{Outcome, Phase, State};
use crate::lines::{
    feed_lines, feed_tail, lemma_feed_in_two, lemma_texts_of_concat, rest_texts, stream_texts,
    texts_of,
};
use crate::relay::{frame, frames, RelayState, Step};
use vstd::prelude::*;

verus! {

/// One call on an invocation.
pub enum Op {
    /// The coordinator reports that the child runs.
    Spawned,
    /// The output relay has read these bytes.
    OutputBytes(Seq<u8>),
    /// The output relay has reached the end of the child's output.
    OutputEnded,
    /// The caller polls output.
    Poll,
    /// The caller offers this line of input.
    SendInput(Seq<char>),
    /// The caller announces that no more input will come.
    CloseInput,
    /// The input relay asks what to do next.
    RelayStep,
    /// The input relay reports a failed write.
    WriteFailed,
    /// The coordinator reports what waiting for the child gave.
    ProcessExited(Outcome),
    /// The coordinator reports that the input relay has been awaited.
    RelayJoined,
}

/// The state after `op` in state `s`.
pub open spec fn apply(s: State, op: Op) -> State {
    match op {
        Op::Spawned => s.spawned(),
        Op::OutputBytes(chunk) => s.output_bytes(chunk),
        Op::OutputEnded => s.output_ended(),
        Op::Poll => s.poll(),
        Op::SendInput(text) => s.send_input(text),
        Op::CloseInput => s.close_input(),
        Op::RelayStep => s.relay_step(),
        Op::WriteFailed => s.write_failed(),
        Op::ProcessExited(outcome) => s.process_exited(outcome),
        Op::RelayJoined => s.relay_joined(),
    }
}

/// The state that a new invocation is in after the calls `ops`.
pub open spec fn run(ops: Seq<Op>) -> State
    decreases ops.len(),
{
    if ops.len() == 0 {
        State::fresh()
    } else {
        apply(run(ops.drop_last()), ops.last())
    }
}

/// The bytes that the output relay read from the child during `ops`.
pub open spec fn stdout(ops: Seq<Op>) -> Seq<u8>
    decreases ops.len(),
{
    if ops.len() == 0 {
        Seq::empty()
    } else {
        match ops.last() {
            Op::OutputBytes(chunk) => if run(ops.drop_last()).output_open {
                stdout(ops.drop_last()) + chunk
            } else {
                stdout(ops.drop_last())
            },
            _ => stdout(ops.drop_last()),
        }
    }
}

/// The lines that the polls during `ops` handed to the caller, in order.
pub open spec fn delivered(ops: Seq<Op>) -> Seq<Seq<char>>
    decreases ops.len(),
{
    if ops.len() == 0 {
        Seq::empty()
    } else {
        match ops.last() {
            Op::Poll => delivered(ops.drop_last()) + run(ops.drop_last()).output,
            _ => delivered(ops.drop_last()),
        }
    }
}

/// The input lines that were accepted from the caller during `ops`, in
/// order.
pub open spec fn accepted(ops: Seq<Op>) -> Seq<Seq<char>>
    decreases ops.len(),
{
    if ops.len() == 0 {
        Seq::empty()
    } else {
        match ops.last() {
            Op::SendInput(text) => if run(ops.drop_last()).send_result() is Ok {
                accepted(ops.drop_last()).push(text)
            } else {
                accepted(ops.drop_last())
            },
            _ => accepted(ops.drop_last()),
        }
    }
}

/// The input lines that the relay was given to write during `ops`, in order.
pub open spec fn written(ops: Seq<Op>) -> Seq<Seq<char>>
    decreases ops.len(),
{
    if ops.len() == 0 {
        Seq::empty()
    } else {
        match ops.last() {
            Op::RelayStep => if run(ops.drop_last()).relay_action() is Write {
                written(ops.drop_last()).push(run(ops.drop_last()).input[0])
            } else {
                written(ops.drop_last())
            },
            _ => written(ops.drop_last()),
        }
    }
}

/// The bytes that the relay was given to write to the child's standard input
/// during `ops`.
pub open spec fn stdin(ops: Seq<Op>) -> Seq<u8>
    decreases ops.len(),
{
    if ops.len() == 0 {
        Seq::empty()
    } else {
        match ops.last() {
            Op::RelayStep => match run(ops.drop_last()).relay_action() {
                Step::Write(bytes) => stdin(ops.drop_last()) + bytes,
                _ => stdin(ops.drop_last()),
            },
            _ => stdin(ops.drop_last()),
        }
    }
}

/// Every call keeps the invariant of invocation states.
pub proof fn lemma_apply_keeps_inv(s: State, op: Op)
    requires
        s.inv(),
    ensures
        apply(s, op).inv(),
{
}

/// Every state that a run reaches satisfies the invariant.
pub proof fn lemma_run_inv(ops: Seq<Op>)
    ensures
        run(ops).inv(),
    decreases ops.len(),
{
    if ops.len() > 0 {
        lemma_run_inv(ops.drop_last());
        lemma_apply_keeps_inv(run(ops.drop_last()), ops.last());
    }
}

/// The phases are passed in order and none is skipped: a call leaves the
/// phase as it is or moves it to the next one, and a completed invocation
/// stays completed.
pub proof fn lemma_phases_in_order(s: State, op: Op)
    requires
        s.inv(),
    ensures
        apply(s, op).phase.rank() == s.phase.rank() || apply(s, op).phase.rank() == s.phase.rank()
            + 1,
        s.phase == Phase::Completed ==> apply(s, op).phase == Phase::Completed,
{
}

/// Observing a completed invocation changes nothing but the queue that the
/// poll empties: every call other than a poll leaves the state as it is.
pub proof fn lemma_completed_is_final(s: State, op: Op)
    requires
        s.inv(),
        s.phase == Phase::Completed,
    ensures
        op !is Poll ==> apply(s, op) == s,
        op is Poll ==> apply(s, op) == (State { output: Seq::empty(), ..s }),
        apply(s, op).final_result() == s.final_result(),
{
}

/// Cancellation of the input relay is requested only after the child has
/// exited: while an invocation is spawning or running, its relay handle is
/// running.
pub proof fn lemma_exit_precedes_cancellation(ops: Seq<Op>)
    ensures
        run(ops).relay.state != RelayState::Running ==> run(ops).phase == Phase::Draining || run(
            ops,
        ).phase == Phase::Completed,
        run(ops).relay.state != RelayState::Running ==> run(ops).outcome is Some,
{
    lemma_run_inv(ops);
}

/// The input relay is stopped once and for all: no call changes the handle
/// of a relay that has been joined, and joining it again changes nothing at
/// all.
pub proof fn lemma_stopped_relay_stays(s: State, op: Op)
    requires
        s.inv(),
        s.relay.state == RelayState::Stopped,
    ensures
        apply(s, op).relay == s.relay,
        s.relay_joined() == s,
{
}

/// While the output is open, the lines polled so far followed by the lines
/// still queued are the finished text lines of the bytes read so far, and
/// the bytes behind the last line feed wait. Once the output has ended, they
/// are the text lines of the whole stream.
pub proof fn lemma_output_in_order(ops: Seq<Op>)
    ensures
        run(ops).output_open ==> delivered(ops) + run(ops).output == texts_of(
            feed_lines(Seq::empty(), stdout(ops)),
        ) && run(ops).partial == feed_tail(Seq::empty(), stdout(ops)),
        !run(ops).output_open ==> delivered(ops) + run(ops).output == stream_texts(stdout(ops)),
    decreases ops.len(),
{
    if ops.len() == 0 {
        assert(delivered(ops) + run(ops).output =~= Seq::<Seq<char>>::empty());
    } else {
        let head = ops.drop_last();
        let s = run(head);
        lemma_output_in_order(head);
        match ops.last() {
            Op::OutputBytes(chunk) => {
                if s.output_open {
                    let nothing = Seq::<u8>::empty();
                    lemma_feed_in_two(nothing, stdout(head), chunk);
                    lemma_texts_of_concat(
                        feed_lines(nothing, stdout(head)),
                        feed_lines(s.partial, chunk),
                    );
                    assert(delivered(head) + (s.output + texts_of(feed_lines(s.partial, chunk)))
                        =~= (delivered(head) + s.output) + texts_of(
                        feed_lines(s.partial, chunk),
                    ));
                }
            },
            Op::OutputEnded => {
                if s.output_open {
                    assert(delivered(head) + (s.output + rest_texts(s.partial))
                        =~= (delivered(head) + s.output) + rest_texts(s.partial));
                }
            },
            Op::Poll => {
                assert((delivered(head) + s.output) + Seq::<Seq<char>>::empty() =~= delivered(
                    head,
                ) + s.output);
            },
            _ => {},
        }
    }
}

/// Polling over the lifetime of an invocation yields exactly the lines that
/// the child printed, in the order in which it printed them: once a
/// completed invocation has been polled, the lines handed out by all polls
/// together are the text lines of the child's whole output.
pub proof fn lemma_polls_yield_every_line(ops: Seq<Op>)
    requires
        run(ops).phase == Phase::Completed,
        run(ops).output.len() == 0,
    ensures
        delivered(ops) == stream_texts(stdout(ops)),
{
    lemma_run_inv(ops);
    lemma_output_in_order(ops);
    assert(delivered(ops) + run(ops).output =~= delivered(ops));
}

/// A poll of a completed invocation carries the end marker and leaves
/// nothing behind, so the theorem on all polls applies right after it.
pub proof fn lemma_last_poll_is_complete(ops: Seq<Op>)
    requires
        run(ops).phase == Phase::Completed,
    ensures
        run(ops.push(Op::Poll)).phase == Phase::Completed,
        delivered(ops.push(Op::Poll)) == stream_texts(stdout(ops.push(Op::Poll))),
{
    let next = ops.push(Op::Poll);
    assert(next.drop_last() == ops);
    lemma_polls_yield_every_line(next);
}

/// Input offered to a completed invocation is always refused as closed,
/// whatever is offered, and changes nothing.
pub proof fn lemma_completed_refuses_input(s: State, text: Seq<char>)
    requires
        s.inv(),
        s.phase == Phase::Completed,
    ensures
        s.send_result() == Err::<(), BridgeError>(BridgeError::ChannelClosed),
        s.send_input(text) == s,
{
}

/// Once the child has exited, the input relay is told to stop at its very
/// next step, whether or not any input is waiting or ever arrives.
pub proof fn lemma_cancelled_relay_stops(s: State, outcome: Outcome)
    requires
        s.inv(),
        s.phase == Phase::Running,
    ensures
        s.process_exited(outcome).relay_action() == Step::Stop,
        s.process_exited(outcome).relay.state == RelayState::Cancelled,
{
}

/// Shutting down needs no input: from any draining state, letting the relay
/// take its step, joining it and ending the output completes the invocation.
pub proof fn lemma_draining_completes(s: State)
    requires
        s.inv(),
        s.phase == Phase::Draining,
    ensures
        s.relay_step().relay_action() == Step::Stop,
        s.relay_step().relay_joined().output_ended().phase == Phase::Completed,
{
}

/// A failed write stops the input relay and nothing else: phase, outcome and
/// the whole output side stay as they were, the relay is told to stop, and
/// output that arrives afterwards is queued exactly as it would have been.
pub proof fn lemma_write_failure_spares_output(s: State, chunk: Seq<u8>)
    requires
        s.inv(),
        s.phase != Phase::Spawning,
    ensures
        s.write_failed().phase == s.phase,
        s.write_failed().outcome == s.outcome,
        s.write_failed().output == s.output,
        s.write_failed().partial == s.partial,
        s.write_failed().output_open == s.output_open,
        s.write_failed().relay_action() == Step::Stop,
        !s.write_failed().input_open,
        s.write_failed().output_bytes(chunk) == s.output_bytes(chunk).write_failed(),
        s.write_failed().output_ended().output == s.output_ended().output,
        s.write_failed().final_result() == s.final_result(),
{
}

/// The relay writes the accepted lines in the order of their acceptance and
/// skips none: what it was given to write is a prefix of what was accepted,
/// and while its worker lives, the rest is exactly what is still queued.
pub proof fn lemma_input_in_order(ops: Seq<Op>)
    ensures
        written(ops).len() <= accepted(ops).len(),
        written(ops) == accepted(ops).take(written(ops).len() as int),
        run(ops).relay.exit is None ==> written(ops) + run(ops).input == accepted(ops),
    decreases ops.len(),
{
    if ops.len() == 0 {
        assert(written(ops) + run(ops).input =~= accepted(ops));
        assert(written(ops) =~= accepted(ops).take(0));
    } else {
        let head = ops.drop_last();
        let s = run(head);
        lemma_input_in_order(head);
        lemma_run_inv(head);
        let w = written(head);
        let a = accepted(head);
        match ops.last() {
            Op::SendInput(text) => {
                if s.send_result() is Ok {
                    assert(a.push(text).take(w.len() as int) =~= a.take(w.len() as int));
                    if s.relay.exit is None {
                        assert(w + s.input.push(text) =~= (w + s.input).push(text));
                    }
                }
            },
            Op::RelayStep => {
                if s.relay_action() is Write {
                    assert(w.push(s.input[0]) + s.input.drop_first() =~= w + s.input);
                    assert(w.push(s.input[0]) =~= a.take(w.len() as int + 1));
                }
            },
            _ => {},
        }
    }
}

/// The child reads whole lines only: the bytes written to its standard
/// input are the frames of the written lines, one after the other, so the
/// bytes of two lines never mix, however the offers were interleaved.
pub proof fn lemma_stdin_is_whole_frames(ops: Seq<Op>)
    ensures
        stdin(ops) == frames(written(ops)),
    decreases ops.len(),
{
    if ops.len() > 0 {
        let head = ops.drop_last();
        lemma_stdin_is_whole_frames(head);
        match ops.last() {
            Op::RelayStep => {
                if run(head).relay_action() is Write {
                    let line = run(head).input[0];
                    assert(written(ops).drop_last() == written(head));
                    assert(run(head).relay_action() == Step::Write(frame(line)));
                }
            },
            _ => {},
        }
    }
}

} // verus!
