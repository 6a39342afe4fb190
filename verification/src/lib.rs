//! Command-execution and display-update pipeline of an interactive terminal
//! shell front-end.
//!
//! The crate holds the decisions of the shell: what a submitted line means,
//! how the output of a subprocess reaches the console log, how deferred
//! display updates are queued and applied, and when the event loop ends.
//! Spawning processes, sleeping, and drawing are left to the host program,
//! which reports what happened and carries out what the library asks for.

pub mod channel;
pub mod clock;
pub mod event_loop;
pub mod executor;
pub mod session;
pub mod ticker;
