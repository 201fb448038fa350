//! The notification channel registry: the single current sender feeding the
//! daemon's notification stream.
//!
//! The daemon may reconnect its long-lived stream at any time; each
//! subscription swaps a fresh sender in, and the newest always wins. The
//! previous handle is simply abandoned: in-flight sends through it reach a
//! receiver nobody drains and are lost, which is the intended best-effort
//! behaviour. `attach` and `send` are the only mutation points; callers that
//! share the registry across tasks keep it behind an exclusive lock and hold
//! the lock across no suspension point, since neither operation blocks.

use vstd::prelude::*;

use crate::messages::Notification;

verus! {

/// The sender half of the channel toward the subscribed daemon.
pub type NotificationSender = tokio::sync::mpsc::Sender<Notification>;

/// Holder of the one current notification sender.
pub struct NotificationRegistry {
    pub current: NotificationSender,
}

/// Relies on tokio's `mpsc::Sender::try_send`: delivers to the channel when
/// the receiver is open and capacity remains, and otherwise returns the
/// message; it never blocks. Delivery is best-effort: the caller learns only
/// whether the channel accepted the message.
#[verifier::external_body]
fn try_send_notification(sender: &NotificationSender, n: Notification) -> (accepted: bool) {
    sender.try_send(n).is_ok()
}

impl NotificationRegistry {
    /// A registry whose current handle is `initial` — usually a placeholder
    /// whose receiver was dropped, until a daemon subscribes.
    pub fn new(initial: NotificationSender) -> (r: NotificationRegistry)
        ensures
            r.current == initial,
    {
        NotificationRegistry { current: initial }
    }

    /// Replaces the current handle: every later send goes through `sender`
    /// and only through it. The abandoned handle is dropped here; sends
    /// already made through it are not recalled.
    pub fn attach(&mut self, sender: NotificationSender)
        ensures
            final(self).current == sender,
    {
        self.current = sender;
    }

    /// Sends through the current handle, best-effort: a failure — the peer
    /// disconnected, or its stream is saturated — is reported but need not be
    /// acted on.
    pub fn send(&self, n: Notification) -> (accepted: bool) {
        try_send_notification(&self.current, n)
    }
}

} // verus!
