//! The disposition broker: the single-flight handshake between a blocked
//! "ask for a rule" call and the operator loop.
//!
//! At most one connection awaits a disposition at a time. A request arrives
//! with a one-shot reply sender; while one is outstanding, further requests
//! are rejected rather than queued or overwritten. The outstanding slot is
//! cleared by delivering a decision, or by expiry on a later tick — never
//! before its deadline. A decision arriving when nothing is pending is
//! silently dropped.

use vstd::prelude::*;

use crate::messages::{Connection, Rule};

verus! {

/// What a disposition request is answered with.
#[derive(Debug, PartialEq)]
pub enum DispositionReply {
    /// The operator produced a rule in time.
    Rule(Rule),
    /// Another disposition was already outstanding; this one was rejected.
    AlreadyPending,
}

/// Why a disposition request failed.
#[derive(Debug, Clone, Copy, PartialEq, Eq, Structural)]
pub enum DispositionError {
    /// Another disposition was already outstanding.
    AlreadyPending,
    /// No decision arrived within the configured timeout.
    DispositionTimeout,
    /// The reply channel closed without a decision: the operator loop died.
    BrokerClosed,
}

/// The sender half of a disposition request's one-shot reply channel.
pub type ReplySender = tokio::sync::oneshot::Sender<DispositionReply>;

/// A connection awaiting a decision, with its deadline and its reply channel.
#[derive(Debug)]
pub struct PendingDisposition {
    pub connection: Connection,
    /// The second on the caller's clock at which the request expires.
    pub expiry: u64,
    pub reply: ReplySender,
}

/// Holder of the single outstanding disposition, owned by the operator loop.
#[derive(Debug)]
pub struct DispositionBroker {
    pub pending: Option<PendingDisposition>,
}

/// Relies on tokio's `oneshot::Sender::send`: delivers the value to the
/// receiver if it still listens, and otherwise returns it; it never blocks.
#[verifier::external_body]
pub(crate) fn send_reply(reply: ReplySender, value: DispositionReply) -> (delivered: bool) {
    reply.send(value).is_ok()
}

impl DispositionBroker {
    /// A broker with nothing outstanding.
    pub fn new() -> (b: DispositionBroker)
        ensures
            b.pending is None,
    {
        DispositionBroker { pending: None }
    }

    /// Opens the handshake for a trapped connection. While another
    /// disposition is outstanding the request is refused and its reply sender
    /// handed back untouched, so the caller can answer it; otherwise the
    /// connection becomes the outstanding disposition, expiring
    /// `timeout_secs` after `now`.
    pub fn open_request(
        &mut self,
        connection: Connection,
        reply: ReplySender,
        now: u64,
        timeout_secs: u64,
    ) -> (r: Result<(), ReplySender>)
        requires
            now + timeout_secs <= u64::MAX,
        ensures
            old(self).pending is Some ==> final(self).pending == old(self).pending && (
            r matches Err(t) && t == reply),
            old(self).pending is None ==> r is Ok && (final(self).pending matches Some(p)
                && p.connection == connection && p.expiry == now + timeout_secs && p.reply
                == reply),
    {
        if self.pending.is_some() {
            Err(reply)
        } else {
            self.pending = Some(
                PendingDisposition { connection, expiry: now + timeout_secs, reply },
            );
            Ok(())
        }
    }

    /// Delivers the operator's rule to the outstanding request and clears the
    /// slot. When nothing is pending — the request was resolved, expired or
    /// abandoned earlier — the late decision is dropped silently rather than
    /// corrupting a newer request. Returns whether a waiting request took the
    /// rule.
    pub fn resolve(&mut self, rule: Rule) -> (delivered: bool)
        ensures
            final(self).pending is None,
            delivered ==> old(self).pending is Some,
    {
        match self.pending.take() {
            Some(p) => send_reply(p.reply, DispositionReply::Rule(rule)),
            None => false,
        }
    }

    /// Clears the outstanding disposition once its deadline has passed, and
    /// never before. Returns whether anything was cleared.
    pub fn expire(&mut self, now: u64) -> (expired: bool)
        ensures
            expired == (old(self).pending matches Some(p) && now >= p.expiry),
            final(self).pending == if expired {
                None::<PendingDisposition>
            } else {
                old(self).pending
            },
    {
        let expired = match &self.pending {
            Some(p) => now >= p.expiry,
            None => false,
        };
        if expired {
            self.pending = None;
        }
        expired
    }
}

/// The library-level outcome of awaiting a disposition reply, from what the
/// request path observed: `None` when the deadline elapsed first, `Some(None)`
/// when the reply channel closed without a value, and `Some(Some(v))` when the
/// broker answered `v`.
pub fn disposition_outcome(observed: Option<Option<DispositionReply>>) -> (r: Result<
    Rule,
    DispositionError,
>)
    ensures
        match observed {
            None => r == Err::<Rule, DispositionError>(DispositionError::DispositionTimeout),
            Some(None) => r == Err::<Rule, DispositionError>(DispositionError::BrokerClosed),
            Some(Some(DispositionReply::AlreadyPending)) => r == Err::<Rule, DispositionError>(
                DispositionError::AlreadyPending,
            ),
            Some(Some(DispositionReply::Rule(rule))) => r matches Ok(got) && got == rule,
        },
{
    match observed {
        None => Err(DispositionError::DispositionTimeout),
        Some(None) => Err(DispositionError::BrokerClosed),
        Some(Some(DispositionReply::AlreadyPending)) => Err(DispositionError::AlreadyPending),
        Some(Some(DispositionReply::Rule(rule))) => Ok(rule),
    }
}

} // verus!
