//! Verified core of a terminal command launcher.
//!
//! The crate models one run of a shell command as an explicit state machine:
//! output lines flow from the child to the caller through a FIFO queue, input
//! lines flow from the caller to the child through a bounded FIFO queue, and a
//! coordinator shuts the input side down exactly once after the child has
//! exited. Everything that touches the operating system (spawning, pipes,
//! worker scheduling, drawing) lives with the embedding program; it feeds
//! events in and performs the actions that come out.

pub mod browser;
pub mod channel;
pub mod command;
pub mod error;
pub mod invocation;
pub mod keys;
pub mod launcher;
pub mod layout;
pub mod lines;
pub mod list_state;
pub mod popup;
pub mod prompt;
pub mod relay;
pub mod text;
pub mod todo;
pub mod trace;
