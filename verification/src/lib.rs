//! Background helper that streams the output of a long command into a
//! Kakoune buffer through a named pipe.
//!
//! The crate holds the decisions of that helper: where a channel's pipe
//! lives and how it is created afresh, how a command is addressed to a
//! session or to one of its clients, how the foreground call hands its
//! arguments to a detached worker, and the order in which the worker drives
//! the streaming protocol.  Every function here is pure: filesystem and
//! process operations are described as values, performed by the caller, and
//! their outcomes handed back.

pub mod args;
pub mod error;
pub mod handle_context;
pub mod kakoune;
pub mod process;
pub mod worker;
