//! The faults of one command invocation.

use vstd::prelude::*;
use vstd::string::*;

verus! {

/// Everything that can go wrong while a command runs.
#[derive(Debug, Clone, Copy, PartialEq, Eq, Structural)]
pub enum BridgeError {
    /// The shell could not be started.
    SpawnError,
    /// Writing to the child's standard input, or flushing it, failed.
    IoError,
    /// One line of the child's output was not valid text.
    DecodeError,
    /// Input was offered after the consuming side had gone away.
    ChannelClosed,
    /// Input was offered while the input queue was full.
    Backpressure,
    /// Waiting for the child to exit failed.
    ProcessWaitError,
}

impl BridgeError {
    /// Whether the fault ends the invocation as a whole. Faults of a single
    /// line or a single write stay with the relay that met them.
    pub open spec fn fatal(self) -> bool {
        self == BridgeError::SpawnError || self == BridgeError::ProcessWaitError
    }

    /// The message shown for the fault.
    pub open spec fn message(self) -> Seq<char> {
        match self {
            BridgeError::SpawnError => "the shell could not be started"@,
            BridgeError::IoError => "writing to the command's input failed"@,
            BridgeError::DecodeError => "a line of output was not valid UTF-8"@,
            BridgeError::ChannelClosed => "the command no longer takes input"@,
            BridgeError::Backpressure => "the command's input queue is full"@,
            BridgeError::ProcessWaitError => "waiting for the command to exit failed"@,
        }
    }

    /// Whether the fault ends the invocation as a whole.
    pub fn is_fatal(&self) -> (b: bool)
        ensures
            b == self.fatal(),
    {
        match self {
            BridgeError::SpawnError => true,
            BridgeError::ProcessWaitError => true,
            _ => false,
        }
    }

    /// The message shown for the fault.
    pub fn describe(&self) -> (msg: String)
        ensures
            msg@ == self.message(),
    {
        match self {
            BridgeError::SpawnError => String::from_str("the shell could not be started"),
            BridgeError::IoError => String::from_str("writing to the command's input failed"),
            BridgeError::DecodeError => String::from_str("a line of output was not valid UTF-8"),
            BridgeError::ChannelClosed => String::from_str("the command no longer takes input"),
            BridgeError::Backpressure => String::from_str("the command's input queue is full"),
            BridgeError::ProcessWaitError => String::from_str(
                "waiting for the command to exit failed",
            ),
        }
    }
}

} // verus!
