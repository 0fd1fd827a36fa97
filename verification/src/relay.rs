//! The input relay: the worker that moves queued input lines into the
//! child's standard input, and the handle through which it is stopped.
//!
//! The worker itself runs with the embedding program. Here is what it
//! decides: which bytes a line becomes, and how its handle moves from
//! running over cancelled to stopped.

use crate::lines::LINE_FEED;
use vstd::prelude::*;
use vstd::string::*;
use vstd::utf8::*;

verus! {

/// Where a relay handle stands in its life.
#[derive(Debug, Clone, Copy, PartialEq, Eq, Structural)]
pub enum RelayState {
    /// The worker may run; nobody has asked it to stop.
    Running,
    /// Cancellation has been requested and not yet been awaited.
    Cancelled,
    /// The worker has left its loop and has been awaited.
    Stopped,
}

/// Why a relay worker left its loop.
#[derive(Debug, Clone, Copy, PartialEq, Eq, Structural)]
pub enum RelayExit {
    /// The input queue was closed and had run dry.
    ChannelClosed,
    /// A write to the child's standard input, or a flush, failed.
    WriteFailed,
    /// Cancellation had been requested.
    Cancelled,
}

/// What a relay worker does next, as a mathematical value.
pub enum Step {
    /// Write these bytes to the child's standard input and flush.
    Write(Seq<u8>),
    /// Sleep until a line is queued, the queue is closed, or cancellation
    /// is requested.
    Wait,
    /// Leave the loop.
    Stop,
}

/// What a relay worker does next.
#[derive(Debug, PartialEq, Eq)]
pub enum RelayStep {
    /// Write these bytes to the child's standard input and flush.
    Write(Vec<u8>),
    /// Sleep until a line is queued, the queue is closed, or cancellation
    /// is requested.
    Wait,
    /// Leave the loop.
    Stop,
}

impl View for RelayStep {
    type V = Step;

    open spec fn view(&self) -> Step {
        match self {
            RelayStep::Write(bytes) => Step::Write(bytes@),
            RelayStep::Wait => Step::Wait,
            RelayStep::Stop => Step::Stop,
        }
    }
}

/// The bytes written for one input line: its UTF-8 encoding followed by a
/// line feed.
pub open spec fn frame(text: Seq<char>) -> Seq<u8> {
    encode_utf8(text).push(LINE_FEED)
}

/// The frames of `lines`, one after the other.
pub open spec fn frames(lines: Seq<Seq<char>>) -> Seq<u8>
    decreases lines.len(),
{
    if lines.len() == 0 {
        Seq::empty()
    } else {
        frames(lines.drop_last()) + frame(lines.last())
    }
}

/// The bytes written for one input line.
pub fn frame_line(text: &str) -> (bytes: Vec<u8>)
    ensures
        bytes@ == frame(text@),
{
    let mut bytes = text.as_bytes_vec();
    bytes.push(LINE_FEED);
    bytes
}

/// The mathematical value of a relay handle.
pub struct HandleView {
    /// Where the handle stands in its life.
    pub state: RelayState,
    /// Why the worker left its loop, once it has.
    pub exit: Option<RelayExit>,
}

impl HandleView {
    /// A stopped handle knows why its worker left, and a worker that left
    /// because of cancellation had been asked to.
    pub open spec fn inv(self) -> bool {
        &&& self.state == RelayState::Stopped ==> self.exit is Some
        &&& self.exit == Some(RelayExit::Cancelled) ==> self.state != RelayState::Running
    }

    /// The handle after cancellation has been requested.
    pub open spec fn cancel(self) -> HandleView {
        if self.state == RelayState::Running {
            HandleView { state: RelayState::Cancelled, ..self }
        } else {
            self
        }
    }

    /// The handle after its worker has left the loop for `reason`. The first
    /// reason stands, and cancellation counts only once it was requested.
    pub open spec fn exited(self, reason: RelayExit) -> HandleView {
        if self.exit is Some || (reason == RelayExit::Cancelled && self.state
            == RelayState::Running) {
            self
        } else {
            HandleView { exit: Some(reason), ..self }
        }
    }

    /// The handle after a cancelled worker has been awaited.
    pub open spec fn join(self) -> HandleView {
        if self.state == RelayState::Cancelled {
            HandleView {
                state: RelayState::Stopped,
                exit: if self.exit is Some {
                    self.exit
                } else {
                    Some(RelayExit::Cancelled)
                },
            }
        } else {
            self
        }
    }
}

/// A cancellable, awaitable handle to one relay worker.
#[derive(Debug)]
pub struct RelayHandle {
    state: RelayState,
    exit: Option<RelayExit>,
}

impl View for RelayHandle {
    type V = HandleView;

    closed spec fn view(&self) -> HandleView {
        HandleView { state: self.state, exit: self.exit }
    }
}

impl RelayHandle {
    /// The handle of a worker that has just been started.
    pub fn start() -> (handle: RelayHandle)
        ensures
            handle@ == (HandleView { state: RelayState::Running, exit: None }),
            handle@.inv(),
    {
        RelayHandle { state: RelayState::Running, exit: None }
    }

    /// Where the handle stands in its life.
    pub fn state(&self) -> (state: RelayState)
        ensures
            state == self@.state,
    {
        self.state
    }

    /// Why the worker left its loop, once it has.
    pub fn exit(&self) -> (exit: Option<RelayExit>)
        ensures
            exit == self@.exit,
    {
        self.exit
    }

    /// Whether the worker must leave its loop before taking another line.
    pub fn must_stop(&self) -> (b: bool)
        ensures
            b == (self@.state != RelayState::Running || self@.exit is Some),
    {
        match self.state {
            RelayState::Running => self.exit.is_some(),
            _ => true,
        }
    }

    /// Requests cancellation. Only a running handle changes.
    pub fn cancel(&mut self)
        ensures
            final(self)@ == old(self)@.cancel(),
            old(self)@.inv() ==> final(self)@.inv(),
    {
        match self.state {
            RelayState::Running => {
                self.state = RelayState::Cancelled;
            },
            _ => {},
        }
    }

    /// Records that the worker has left its loop. The first reason stands.
    pub fn exited(&mut self, reason: RelayExit)
        ensures
            final(self)@ == old(self)@.exited(reason),
            old(self)@.inv() ==> final(self)@.inv(),
    {
        let asked: bool = match self.state {
            RelayState::Running => false,
            _ => true,
        };
        let by_cancel: bool = match reason {
            RelayExit::Cancelled => true,
            _ => false,
        };
        if self.exit.is_none() && (asked || !by_cancel) {
            self.exit = Some(reason);
        }
    }

    /// Records that the cancelled worker has been awaited. A handle moves to
    /// stopped once; joining again, or joining a handle that was never
    /// cancelled, changes nothing. Returns whether the handle moved.
    pub fn join(&mut self) -> (moved: bool)
        ensures
            final(self)@ == old(self)@.join(),
            moved == (old(self)@.state == RelayState::Cancelled),
            old(self)@.inv() ==> final(self)@.inv(),
    {
        match self.state {
            RelayState::Cancelled => {
                self.state = RelayState::Stopped;
                if self.exit.is_none() {
                    self.exit = Some(RelayExit::Cancelled);
                }
                true
            },
            _ => false,
        }
    }
}

/// A handle never goes back: over any call its state stays or moves one
/// step along running, cancelled, stopped.
pub proof fn lemma_handle_moves_forward(h: HandleView, reason: RelayExit)
    ensures
        h.exited(reason).state == h.state,
        h.cancel().state == h.state || (h.state == RelayState::Running && h.cancel().state
            == RelayState::Cancelled),
        h.join().state == h.state || (h.state == RelayState::Cancelled && h.join().state
            == RelayState::Stopped),
{
}

/// Joining twice is joining once, and cancelling twice is cancelling once.
pub proof fn lemma_handle_idempotent(h: HandleView)
    ensures
        h.join().join() == h.join(),
        h.cancel().cancel() == h.cancel(),
{
}

} // verus!
