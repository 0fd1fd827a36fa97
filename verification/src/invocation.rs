//! One run of a command, from spawn to completion.
//!
//! An [`Invocation`] is the shared record of a running command. Four parties
//! act on it, each through its own calls: the coordinator reports that the
//! child was spawned, that it exited, and that the input relay was joined;
//! the output relay feeds the child's output and reports its end; the input
//! relay asks what to write next; the caller polls output and offers input.
//! The embedding program serialises these calls and does the actual spawning,
//! reading, writing and waiting.

use crate::channel::Channel;
use crate::command::CommandSpec;
use crate::error::BridgeError;
use crate::lines::{
    decode_line, faults_of, feed_lines, feed_tail, line_text, rest_texts, texts_of, LineBuffer,
};
use crate::relay::{
    frame, frame_line, HandleView, RelayExit, RelayHandle, RelayState, RelayStep, Step,
};
use crate::text::views;
use vstd::prelude::*;

verus! {

/// How many input lines may wait for the relay at once.
pub const INPUT_LIMIT: usize = 5;

/// The stages of an invocation, in the order in which they are passed.
#[derive(Debug, Clone, Copy, PartialEq, Eq, Structural)]
pub enum Phase {
    /// The child has not been reported as started.
    Spawning,
    /// The child runs and both relays are active.
    Running,
    /// The child has exited; the input relay is being shut down and the
    /// output relay reads what is left.
    Draining,
    /// Everything has ended. This phase is never left.
    Completed,
}

impl Phase {
    /// Position of the phase in the order of phases.
    pub open spec fn rank(self) -> int {
        match self {
            Phase::Spawning => 0,
            Phase::Running => 1,
            Phase::Draining => 2,
            Phase::Completed => 3,
        }
    }
}

/// How the child ended.
#[derive(Debug, Clone, Copy, PartialEq, Eq, Structural)]
pub enum ExitStatus {
    /// The child exited with this code.
    Code(i32),
    /// The child was ended by a signal.
    Signalled,
}

impl ExitStatus {
    /// Whether the child exited with code zero.
    pub open spec fn succeeded(self) -> bool {
        self == ExitStatus::Code(0)
    }

    /// Whether the child exited with code zero.
    pub fn success(&self) -> (b: bool)
        ensures
            b == self.succeeded(),
    {
        match self {
            ExitStatus::Code(code) => *code == 0,
            ExitStatus::Signalled => false,
        }
    }
}

/// What waiting for the child gave.
#[derive(Debug, Clone, Copy, PartialEq, Eq, Structural)]
pub enum Outcome {
    /// The child ended with this status.
    Exited(ExitStatus),
    /// The wait itself failed.
    WaitFailed,
}

impl Outcome {
    /// The outcome as the final result of the command.
    pub open spec fn result(self) -> Result<ExitStatus, BridgeError> {
        match self {
            Outcome::Exited(status) => Ok(status),
            Outcome::WaitFailed => Err(BridgeError::ProcessWaitError),
        }
    }
}

/// What the coordinator has to do next.
#[derive(Debug, Clone, Copy, PartialEq, Eq, Structural)]
pub enum Action {
    /// Start the child and report whether that worked.
    Spawn,
    /// Wait for the child to exit and report the outcome.
    AwaitExit,
    /// Wake the cancelled input relay, await it, and report that.
    JoinInputRelay,
    /// Wait for the output relay to report the end of output.
    AwaitOutputEnd,
    /// Hand the final result to the caller.
    Report,
}

/// The mathematical value of an invocation.
#[verifier::ext_equal]
pub struct State {
    /// The stage the invocation is in.
    pub phase: Phase,
    /// Output bytes that still wait for their line feed.
    pub partial: Seq<u8>,
    /// Output lines relayed and not yet polled, oldest first.
    pub output: Seq<Seq<char>>,
    /// Whether the output relay may still deliver.
    pub output_open: bool,
    /// Input lines accepted and not yet handed to the relay, oldest first.
    pub input: Seq<Seq<char>>,
    /// Whether input is still accepted.
    pub input_open: bool,
    /// The handle of the input relay.
    pub relay: HandleView,
    /// What waiting for the child gave, once it has returned.
    pub outcome: Option<Outcome>,
}

impl State {
    /// The state of an invocation that has just been created.
    pub open spec fn fresh() -> State {
        State {
            phase: Phase::Spawning,
            partial: Seq::empty(),
            output: Seq::empty(),
            output_open: true,
            input: Seq::empty(),
            input_open: true,
            relay: HandleView { state: RelayState::Running, exit: None },
            outcome: None,
        }
    }

    /// What holds of every state that an invocation can reach.
    pub open spec fn inv(self) -> bool {
        &&& self.relay.inv()
        &&& self.input.len() <= INPUT_LIMIT
        &&& self.relay.exit is Some ==> !self.input_open && self.input.len() == 0
        &&& !self.output_open ==> self.partial.len() == 0
        &&& match self.phase {
            Phase::Spawning => self.relay.state == RelayState::Running && self.relay.exit is None
                && self.outcome is None,
            Phase::Running => self.relay.state == RelayState::Running && self.outcome is None,
            Phase::Draining => self.relay.state != RelayState::Running && self.outcome is Some
                && (self.relay.state == RelayState::Cancelled || self.output_open),
            Phase::Completed => self.relay.state == RelayState::Stopped && self.outcome is Some
                && !self.output_open,
        }
    }

    /// Moves a draining invocation on to completion once the input relay has
    /// been joined and the output has ended.
    pub open spec fn settle(self) -> State {
        if self.phase == Phase::Draining && self.relay.state == RelayState::Stopped
            && !self.output_open {
            State { phase: Phase::Completed, ..self }
        } else {
            self
        }
    }

    /// The state with the input side gone: nothing more is accepted and what
    /// was still queued is dropped.
    pub open spec fn input_shut(self) -> State {
        State { input: Seq::empty(), input_open: false, ..self }
    }

    /// The coordinator reports that the child runs.
    pub open spec fn spawned(self) -> State {
        if self.phase == Phase::Spawning {
            State { phase: Phase::Running, ..self }
        } else {
            self
        }
    }

    /// The output relay has read `chunk`.
    pub open spec fn output_bytes(self, chunk: Seq<u8>) -> State {
        if self.output_open {
            State {
                output: self.output + texts_of(feed_lines(self.partial, chunk)),
                partial: feed_tail(self.partial, chunk),
                ..self
            }
        } else {
            self
        }
    }

    /// Number of lines in `chunk` that are dropped because they are not text.
    pub open spec fn output_faults(self, chunk: Seq<u8>) -> nat {
        if self.output_open {
            faults_of(feed_lines(self.partial, chunk))
        } else {
            0
        }
    }

    /// The output relay has reached the end of the child's output.
    pub open spec fn output_ended(self) -> State {
        if self.output_open {
            State {
                output: self.output + rest_texts(self.partial),
                partial: Seq::empty(),
                output_open: false,
                ..self
            }.settle()
        } else {
            self
        }
    }

    /// What the caller is told when it offers a line of input.
    pub open spec fn send_result(self) -> Result<(), BridgeError> {
        if !self.input_open {
            Err(BridgeError::ChannelClosed)
        } else if self.input.len() >= INPUT_LIMIT {
            Err(BridgeError::Backpressure)
        } else {
            Ok(())
        }
    }

    /// The caller offers `text` as a line of input.
    pub open spec fn send_input(self, text: Seq<char>) -> State {
        if self.send_result() is Ok {
            State { input: self.input.push(text), ..self }
        } else {
            self
        }
    }

    /// The caller announces that it will offer no more input.
    pub open spec fn close_input(self) -> State {
        State { input_open: false, ..self }
    }

    /// What the input relay does next.
    pub open spec fn relay_action(self) -> Step {
        if self.phase == Phase::Spawning {
            Step::Wait
        } else if self.relay.state != RelayState::Running || self.relay.exit is Some {
            Step::Stop
        } else if self.input.len() > 0 {
            Step::Write(frame(self.input[0]))
        } else if !self.input_open {
            Step::Stop
        } else {
            Step::Wait
        }
    }

    /// The state after the input relay has been told what to do next.
    pub open spec fn relay_step(self) -> State {
        if self.phase == Phase::Spawning || self.relay.exit is Some {
            self
        } else if self.relay.state != RelayState::Running {
            State { relay: self.relay.exited(RelayExit::Cancelled), ..self }.input_shut()
        } else if self.input.len() > 0 {
            State { input: self.input.drop_first(), ..self }
        } else if !self.input_open {
            State { relay: self.relay.exited(RelayExit::ChannelClosed), ..self }
        } else {
            self
        }
    }

    /// The input relay reports that a write or a flush failed.
    pub open spec fn write_failed(self) -> State {
        if self.phase == Phase::Spawning || self.relay.exit is Some {
            self
        } else {
            State { relay: self.relay.exited(RelayExit::WriteFailed), ..self }.input_shut()
        }
    }

    /// The coordinator reports what waiting for the child gave, which also
    /// requests cancellation of the input relay.
    pub open spec fn process_exited(self, outcome: Outcome) -> State {
        if self.phase == Phase::Running {
            State {
                phase: Phase::Draining,
                outcome: Some(outcome),
                relay: self.relay.cancel(),
                ..self
            }
        } else {
            self
        }
    }

    /// The coordinator reports that the input relay has been awaited.
    pub open spec fn relay_joined(self) -> State {
        if self.phase == Phase::Draining && self.relay.state == RelayState::Cancelled {
            State { relay: self.relay.join(), ..self }.input_shut().settle()
        } else {
            self
        }
    }

    /// The caller has taken the queued output.
    pub open spec fn poll(self) -> State {
        State { output: Seq::empty(), ..self }
    }

    /// What the coordinator has to do next.
    pub open spec fn action(self) -> Action {
        match self.phase {
            Phase::Spawning => Action::Spawn,
            Phase::Running => Action::AwaitExit,
            Phase::Draining => if self.relay.state == RelayState::Stopped {
                Action::AwaitOutputEnd
            } else {
                Action::JoinInputRelay
            },
            Phase::Completed => Action::Report,
        }
    }

    /// The final result, once the invocation has completed.
    pub open spec fn final_result(self) -> Option<Result<ExitStatus, BridgeError>> {
        match self.outcome {
            Some(outcome) => if self.phase == Phase::Completed {
                Some(outcome.result())
            } else {
                None
            },
            None => None,
        }
    }

    /// The write fault that the input relay has recorded, if any.
    pub open spec fn relay_fault(self) -> Option<BridgeError> {
        if self.relay.exit == Some(RelayExit::WriteFailed) {
            Some(BridgeError::IoError)
        } else {
            None
        }
    }
}

/// What one poll hands to the caller.
#[derive(Debug)]
pub struct Polled {
    /// The output lines that arrived since the last poll, oldest first.
    pub lines: Vec<String>,
    /// The end marker: set once the invocation has completed, after which no
    /// further line will ever arrive.
    pub finished: bool,
}

/// The shared record of one running command.
pub struct Invocation {
    command: CommandSpec,
    phase: Phase,
    framer: LineBuffer,
    output: Channel<String>,
    input: Channel<String>,
    relay: RelayHandle,
    outcome: Option<Outcome>,
}

impl View for Invocation {
    type V = State;

    closed spec fn view(&self) -> State {
        State {
            phase: self.phase,
            partial: self.framer@,
            output: views(self.output@),
            output_open: !self.output.closed(),
            input: views(self.input@),
            input_open: !self.input.closed(),
            relay: self.relay@,
            outcome: self.outcome,
        }
    }
}

impl Invocation {
    /// The statements the invocation was created for.
    pub closed spec fn spec_command(&self) -> Seq<Seq<char>> {
        self.command@
    }

    /// Whether the record is one that the functions of this type produce.
    pub closed spec fn wf(&self) -> bool {
        &&& self@.inv()
        &&& self.input.limit() == Some(INPUT_LIMIT)
        &&& self.output.limit() is None
    }

    /// What is known of every well-formed record.
    pub proof fn lemma_wf(&self)
        requires
            self.wf(),
        ensures
            self@.inv(),
    {
    }

    /// A record for `command`, before the child has been started.
    pub fn new(command: CommandSpec) -> (inv: Invocation)
        ensures
            inv.wf(),
            inv@ == State::fresh(),
            inv.spec_command() == command@,
    {
        let inv = Invocation {
            command,
            phase: Phase::Spawning,
            framer: LineBuffer::new(),
            output: Channel::unbounded(),
            input: Channel::bounded(INPUT_LIMIT),
            relay: RelayHandle::start(),
            outcome: None,
        };
        inv
    }

    /// Creates the record of a command whose spawning has been attempted.
    /// If the child `started`, the invocation is running; if not, there is
    /// no invocation, only `BridgeError::SpawnError`.
    pub fn submit(command: CommandSpec, started: bool) -> (res: Result<Invocation, BridgeError>)
        ensures
            started ==> (res matches Ok(inv) && inv.wf() && inv@ == State::fresh().spawned()
                && inv.spec_command() == command@),
            !started ==> (res matches Err(e) && e == BridgeError::SpawnError),
    {
        if started {
            let mut inv = Invocation::new(command);
            inv.spawned();
            Ok(inv)
        } else {
            Err(BridgeError::SpawnError)
        }
    }

    /// The command the invocation was created for.
    pub fn command(&self) -> (command: &CommandSpec)
        ensures
            command@ == self.spec_command(),
    {
        &self.command
    }

    /// The stage the invocation is in.
    pub fn phase(&self) -> (phase: Phase)
        ensures
            phase == self@.phase,
    {
        self.phase
    }

    /// The state of the input relay's handle.
    pub fn relay_state(&self) -> (state: RelayState)
        ensures
            state == self@.relay.state,
    {
        self.relay.state()
    }

    /// What the coordinator has to do next.
    pub fn pending_action(&self) -> (action: Action)
        ensures
            action == self@.action(),
    {
        match self.phase {
            Phase::Spawning => Action::Spawn,
            Phase::Running => Action::AwaitExit,
            Phase::Draining => match self.relay.state() {
                RelayState::Stopped => Action::AwaitOutputEnd,
                _ => Action::JoinInputRelay,
            },
            Phase::Completed => Action::Report,
        }
    }

    /// Completes a draining invocation whose relays have both ended.
    fn settle(&mut self)
        requires
            old(self).input.limit() == Some(INPUT_LIMIT),
            old(self).output.limit() is None,
        ensures
            final(self)@ == old(self)@.settle(),
            final(self).spec_command() == old(self).spec_command(),
            final(self).input.limit() == Some(INPUT_LIMIT),
            final(self).output.limit() is None,
    {
        let relay_stopped: bool = match self.relay.state() {
            RelayState::Stopped => true,
            _ => false,
        };
        let draining: bool = match self.phase {
            Phase::Draining => true,
            _ => false,
        };
        if draining && relay_stopped && self.output.is_closed() {
            self.phase = Phase::Completed;
        }
    }

    /// The coordinator reports that the child runs.
    pub fn spawned(&mut self)
        requires
            old(self).wf(),
        ensures
            final(self).wf(),
            final(self)@ == old(self)@.spawned(),
            final(self).spec_command() == old(self).spec_command(),
    {
        match self.phase {
            Phase::Spawning => {
                self.phase = Phase::Running;
            },
            _ => {},
        }
    }

    /// The output relay has read `chunk` from the child's output. Every line
    /// that the chunk completes is queued for the caller if it is valid
    /// text, and dropped if not; the dropped lines are counted. Once the
    /// output has ended, further chunks change nothing.
    pub fn output_bytes(&mut self, chunk: &[u8]) -> (faults: usize)
        requires
            old(self).wf(),
        ensures
            final(self).wf(),
            final(self)@ == old(self)@.output_bytes(chunk@),
            faults == old(self)@.output_faults(chunk@),
            final(self).spec_command() == old(self).spec_command(),
    {
        if self.output.is_closed() {
            return 0;
        }
        let raws = self.framer.feed(chunk);
        let ghost lines = views(raws@);
        let ghost queued = views(self.output@);
        let mut faults: usize = 0;
        let mut i: usize = 0;
        while i < raws.len()
            invariant
                i <= raws.len(),
                lines == views(raws@),
                faults == faults_of(lines.take(i as int)),
                faults <= i,
                views(self.output@) == queued + texts_of(lines.take(i as int)),
                !self.output.closed(),
                self.output.limit() is None,
                self.input == old(self).input,
                self.relay == old(self).relay,
                self.phase == old(self).phase,
                self.outcome == old(self).outcome,
                self.command == old(self).command,
                self.framer@ == feed_tail(old(self).framer@, chunk@),
            decreases raws.len() - i,
        {
            proof {
                assert(lines.take(i + 1).drop_last() == lines.take(i as int));
            }
            match decode_line(raws[i].as_slice(), true) {
                Ok(text) => {
                    let _ = self.output.try_send(text);
                    assert(queued + texts_of(lines.take(i as int)).push(text@) =~= (queued
                        + texts_of(lines.take(i as int))).push(text@));
                },
                Err(_) => {
                    faults += 1;
                },
            }
            i += 1;
        }
        assert(lines.take(i as int) == lines);
        faults
    }

    /// The output relay has reached the end of the child's output. Bytes
    /// that were still waiting for a line feed count as a last line. Returns
    /// whether that last line was dropped because it is not valid text.
    pub fn output_ended(&mut self) -> (fault: bool)
        requires
            old(self).wf(),
        ensures
            final(self).wf(),
            final(self)@ == old(self)@.output_ended(),
            fault == (old(self)@.output_open && old(self)@.partial.len() > 0 && line_text(
                old(self)@.partial,
                false,
            ) is None),
            final(self).spec_command() == old(self).spec_command(),
    {
        if self.output.is_closed() {
            return false;
        }
        let mut fault: bool = false;
        match self.framer.finish() {
            Some(rest) => {
                match decode_line(rest.as_slice(), false) {
                    Ok(text) => {
                        let _ = self.output.try_send(text);
                    },
                    Err(_) => {
                        fault = true;
                    },
                }
            },
            None => {},
        }
        self.output.close();
        self.settle();
        fault
    }

    /// Hands the caller every output line that arrived since the last poll,
    /// oldest first, together with the end marker. Never waits.
    pub fn poll_output(&mut self) -> (polled: Polled)
        requires
            old(self).wf(),
        ensures
            final(self).wf(),
            final(self)@ == old(self)@.poll(),
            views(polled.lines@) == old(self)@.output,
            polled.finished == (old(self)@.phase == Phase::Completed),
            final(self).spec_command() == old(self).spec_command(),
    {
        let lines = self.output.drain();
        let finished: bool = match self.phase {
            Phase::Completed => true,
            _ => false,
        };
        Polled { lines, finished }
    }

    /// Queues `text` as one line of input for the child. Fails with
    /// `BridgeError::ChannelClosed` once the input side has gone away, which
    /// it has for good when the invocation has completed, and with
    /// `BridgeError::Backpressure` while `INPUT_LIMIT` lines are waiting.
    /// Never waits.
    pub fn send_input(&mut self, text: String) -> (res: Result<(), BridgeError>)
        requires
            old(self).wf(),
        ensures
            final(self).wf(),
            res == old(self)@.send_result(),
            final(self)@ == old(self)@.send_input(text@),
            old(self)@.phase == Phase::Completed ==> res == Err::<(), BridgeError>(
                BridgeError::ChannelClosed,
            ),
            final(self).spec_command() == old(self).spec_command(),
    {
        match self.input.try_send(text) {
            Ok(()) => Ok(()),
            Err(crate::channel::SendError::Closed) => Err(BridgeError::ChannelClosed),
            Err(crate::channel::SendError::Full) => Err(BridgeError::Backpressure),
        }
    }

    /// The caller announces that it will offer no more input. Lines already
    /// queued are still written.
    pub fn close_input(&mut self)
        requires
            old(self).wf(),
        ensures
            final(self).wf(),
            final(self)@ == old(self)@.close_input(),
            final(self).spec_command() == old(self).spec_command(),
    {
        self.input.close();
    }

    /// Tells the input relay what to do next. A relay that has been asked to
    /// stop is told to stop whether or not input is waiting; otherwise the
    /// oldest waiting line is handed out as the bytes to write.
    pub fn relay_step(&mut self) -> (step: RelayStep)
        requires
            old(self).wf(),
        ensures
            final(self).wf(),
            step@ == old(self)@.relay_action(),
            final(self)@ == old(self)@.relay_step(),
            final(self).spec_command() == old(self).spec_command(),
    {
        match self.phase {
            Phase::Spawning => {
                return RelayStep::Wait;
            },
            _ => {},
        }
        if self.relay.exit().is_some() {
            return RelayStep::Stop;
        }
        if self.relay.must_stop() {
            self.relay.exited(RelayExit::Cancelled);
            self.input.shut();
            return RelayStep::Stop;
        }
        match self.input.try_recv() {
            Ok(line) => RelayStep::Write(frame_line(line.as_str())),
            Err(crate::channel::RecvError::Closed) => {
                self.relay.exited(RelayExit::ChannelClosed);
                RelayStep::Stop
            },
            Err(crate::channel::RecvError::Empty) => RelayStep::Wait,
        }
    }

    /// The input relay reports that a write or a flush failed. The relay is
    /// done and input is no longer accepted; the output side is untouched.
    pub fn write_failed(&mut self)
        requires
            old(self).wf(),
        ensures
            final(self).wf(),
            final(self)@ == old(self)@.write_failed(),
            final(self).spec_command() == old(self).spec_command(),
    {
        match self.phase {
            Phase::Spawning => {
                return ;
            },
            _ => {},
        }
        if self.relay.exit().is_some() {
            return ;
        }
        self.relay.exited(RelayExit::WriteFailed);
        self.input.shut();
    }

    /// The coordinator reports what waiting for the child gave. A running
    /// invocation starts draining and cancellation of the input relay is
    /// requested; in any other phase nothing changes.
    pub fn process_exited(&mut self, outcome: Outcome)
        requires
            old(self).wf(),
        ensures
            final(self).wf(),
            final(self)@ == old(self)@.process_exited(outcome),
            final(self).spec_command() == old(self).spec_command(),
    {
        match self.phase {
            Phase::Running => {
                self.phase = Phase::Draining;
                self.outcome = Some(outcome);
                self.relay.cancel();
            },
            _ => {},
        }
    }

    /// The coordinator reports that the cancelled input relay has been
    /// awaited. Reporting it again changes nothing.
    pub fn relay_joined(&mut self)
        requires
            old(self).wf(),
        ensures
            final(self).wf(),
            final(self)@ == old(self)@.relay_joined(),
            final(self).spec_command() == old(self).spec_command(),
    {
        let draining: bool = match self.phase {
            Phase::Draining => true,
            _ => false,
        };
        if draining {
            if self.relay.join() {
                self.input.shut();
                self.settle();
            }
        }
    }

    /// The final result of the command, once the invocation has completed:
    /// the child's exit status, or `BridgeError::ProcessWaitError` if
    /// waiting for it failed. `None` while the invocation is under way.
    pub fn try_wait(&self) -> (res: Option<Result<ExitStatus, BridgeError>>)
        requires
            self.wf(),
        ensures
            res == self@.final_result(),
            res is Some <==> self@.phase == Phase::Completed,
    {
        match self.phase {
            Phase::Completed => match self.outcome {
                Some(Outcome::Exited(status)) => Some(Ok(status)),
                Some(Outcome::WaitFailed) => Some(Err(BridgeError::ProcessWaitError)),
                None => None,
            },
            _ => None,
        }
    }

    /// The write fault that the input relay has recorded, if any. It never
    /// becomes the result of the command.
    pub fn relay_fault(&self) -> (fault: Option<BridgeError>)
        ensures
            fault == self@.relay_fault(),
    {
        match self.relay.exit() {
            Some(RelayExit::WriteFailed) => Some(BridgeError::IoError),
            _ => None,
        }
    }
}

} // verus!
