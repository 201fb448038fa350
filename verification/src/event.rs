//! Events flowing toward the operator loop, and the plain form of operator
//! input. Every inbound call of the request server becomes exactly one
//! `AppEvent`; the loop consumes them strictly one at a time.

use vstd::prelude::*;

use crate::alert::Alert;
use crate::broker::ReplySender;
use crate::messages::{Connection, Statistics};

verus! {

/// A health ping as handed to the operator loop: the daemon's counters and
/// the peer address observed on the transport.
#[derive(Debug)]
pub struct PingEvent {
    pub peer: Option<String>,
    pub stats: Statistics,
}

/// A disposition request as handed to the operator loop: the trapped
/// connection with the one-shot channel that answers it.
pub struct QueuedConnection {
    pub connection: Connection,
    pub reply: ReplySender,
}

/// One unit of work for the operator loop.
pub enum AppEvent {
    /// Fire-and-forget statistics refresh.
    Update(PingEvent),
    /// Fire-and-forget alert ingestion.
    Alert(Alert),
    /// A connection awaiting a disposition.
    AskRule(QueuedConnection),
    /// Operator asked for a probe notification toward the daemon.
    TestNotify,
    /// Operator asked to leave.
    Quit,
}

/// A key press, reduced to what the key handler decides on.
#[derive(Debug, Clone, Copy, PartialEq, Eq, Structural)]
pub enum KeyInput {
    /// A character pressed together with the control modifier.
    Ctrl(char),
    /// A character pressed alone.
    Plain(char),
    Up,
    Down,
}

/// What a key press asks the surrounding loop to enqueue.
#[derive(Debug, Clone, Copy, PartialEq, Eq, Structural)]
pub enum KeyCommand {
    Quit,
    TestNotify,
}

} // verus!
