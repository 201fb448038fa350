//! The operator loop's state: the single owner of statistics, the alert
//! queue, the render offset and the disposition broker. The surrounding loop
//! feeds it events, clock ticks and operator input as plain values and
//! performs whatever outbound action a transition hands back; everything the
//! state does in between is defined here.

use std::collections::VecDeque;

use vstd::prelude::*;

use crate::alert::Alert;
use crate::broker::{send_reply, DispositionBroker, DispositionReply};
use crate::constants::{
    default_action_of, duration_of, Action, DefaultAction, Duration,
};
use crate::event::{AppEvent, KeyCommand, KeyInput, PingEvent};
use crate::messages::{Notification, Rule, Statistics};
use crate::rules::{is_simple_rule, synthesize};
use crate::text::{dec_str, push_dec, push_str_chars, str_eq, string_from_chars};

verus! {

/// The endpoint the request server should listen on: either a TCP address
/// still in its textual form — the transport layer parses and rejects it when
/// it binds — or a Unix socket path.
#[derive(Debug, Clone, PartialEq)]
pub enum BindAddress {
    Tcp(String),
    Unix(String),
}

/// A clickable button: a screen rectangle bound to one disposition.
#[derive(Debug, Clone, Copy, PartialEq, Eq, Structural)]
pub struct Button {
    pub x: u16,
    pub y: u16,
    pub width: u16,
    pub height: u16,
    pub action: Action,
    pub duration: Duration,
}

/// Whether a click at `(col, row)` lands on `b`.
pub open spec fn button_hit(b: Button, col: u16, row: u16) -> bool {
    &&& b.x <= col < b.x + b.width
    &&& b.y <= row < b.y + b.height
}

/// Application state owned by the operator loop.
#[derive(Debug)]
pub struct App {
    /// Is the application running?
    pub running: bool,
    /// Received-ping counter.
    pub rx_pings: u64,
    /// Peer (daemon) address as last observed on the transport.
    pub peer: Option<String>,
    /// Latest stats to present.
    pub current_stats: Option<Statistics>,
    /// Time-ordered alert queue, appended at the back, evicted at the front.
    pub current_alerts: VecDeque<Alert>,
    /// Alert list head in the presentation; kept a valid index or zero.
    pub alert_list_render_offset: usize,
    /// The single outstanding disposition, if any.
    pub broker: DispositionBroker,
    /// Endpoint the request server binds to.
    pub bind_address: BindAddress,
    /// Default action conveyed to subscribing daemons.
    pub default_action: DefaultAction,
    /// Lifetime of temporary rules made by the two quick keys.
    pub temp_rule_lifetime: Duration,
    /// Seconds an open disposition waits before it expires.
    pub connection_disposition_timeout: u64,
    /// Clickable button areas, as laid out by the presentation layer.
    pub buttons: Vec<Button>,
}

/// Whether `s` starts with the Unix socket scheme.
pub open spec fn is_unix_prefixed(s: Seq<char>) -> bool {
    s.len() >= 7 && s.subrange(0, 7) == "unix://"@
}

/// The longest a disposition timeout may be configured, in seconds: safely
/// under the daemon's own deadline on the blocked call.
pub const MAX_DISPOSITION_TIMEOUT: u64 = 115;

/// The message configuration validation fails with, if any: the checks run in
/// a fixed order and the first failure wins. The textual form of a TCP
/// endpoint is not judged here; the transport layer rejects a malformed one
/// when it binds.
pub open spec fn config_error(
    bind: Seq<char>,
    action: Seq<char>,
    lifetime: Seq<char>,
    timeout: u64,
) -> Option<Seq<char>> {
    if is_unix_prefixed(bind) && bind.len() == 7 {
        Some("Unix socket path cannot be empty"@)
    } else if default_action_of(action) is None {
        Some("Invalid default action: "@ + action)
    } else if duration_of(lifetime) is None {
        Some("Invalid temporary rule lifetime: "@ + lifetime)
    } else if timeout > MAX_DISPOSITION_TIMEOUT {
        Some(
            "Connection disposition timeout "@ + dec_str(timeout as nat)
                + " cannot be over 115"@,
        )
    } else {
        None
    }
}

/// The post-state of delivering one decision: the pending slot is cleared and
/// nothing else moves; when nothing was pending the state is untouched.
pub open spec fn rule_decision(pre: App, post: App) -> bool {
    &&& post.broker.pending is None
    &&& pre.broker.pending is None ==> post == pre
    &&& post == (App { broker: post.broker, ..pre })
}

impl App {
    /// Validates the configuration and builds the initial state. The bind
    /// string chooses between a Unix socket path (scheme-prefixed, must be
    /// non-empty) and a TCP endpoint kept textual; default action, rule
    /// lifetime and the timeout cap are enforced here, so configuration
    /// errors fail fast and never at runtime.
    pub fn new(
        bind_string: &String,
        default_action_in: &String,
        temp_rule_lifetime: &String,
        connection_disposition_timeout_in: &u64,
    ) -> (r: Result<App, String>)
        ensures
            match r {
                Ok(app) => {
                    &&& config_error(
                        bind_string@,
                        default_action_in@,
                        temp_rule_lifetime@,
                        *connection_disposition_timeout_in,
                    ) is None
                    &&& (is_unix_prefixed(bind_string@) ==> (app.bind_address matches BindAddress::Unix(p)
                        && p@ == bind_string@.subrange(7, bind_string@.len() as int)))
                    &&& (!is_unix_prefixed(bind_string@) ==> (app.bind_address matches BindAddress::Tcp(t)
                        && t@ == bind_string@))
                    &&& default_action_of(default_action_in@) == Some(app.default_action)
                    &&& duration_of(temp_rule_lifetime@) == Some(app.temp_rule_lifetime)
                    &&& app.connection_disposition_timeout == *connection_disposition_timeout_in
                    &&& app.connection_disposition_timeout <= MAX_DISPOSITION_TIMEOUT
                    &&& app.running
                    &&& app.rx_pings == 0
                    &&& app.peer is None
                    &&& app.current_stats is None
                    &&& app.current_alerts@.len() == 0
                    &&& app.alert_list_render_offset == 0
                    &&& app.broker.pending is None
                    &&& app.buttons@.len() == 0
                },
                Err(e) => config_error(
                    bind_string@,
                    default_action_in@,
                    temp_rule_lifetime@,
                    *connection_disposition_timeout_in,
                ) matches Some(m) && e@ == m,
            },
    {
        let blen = bind_string.as_str().unicode_len();
        let unix_prefixed = blen >= 7 && str_eq(
            bind_string.as_str().substring_char(0, 7),
            "unix://",
        );
        let bind_address = if unix_prefixed {
            if blen == 7 {
                return Err(String::from_str("Unix socket path cannot be empty"));
            }
            BindAddress::Unix(bind_string.as_str().substring_char(7, blen).to_owned())
        } else {
            BindAddress::Tcp(bind_string.clone())
        };

        let default_action = match DefaultAction::new(default_action_in.as_str()) {
            Ok(a) => a,
            Err(_) => {
                let mut msg = String::from_str("Invalid default action: ");
                msg.append(default_action_in.as_str());
                return Err(msg);
            },
        };

        let temp_lifetime = match Duration::new(temp_rule_lifetime.as_str()) {
            Ok(d) => d,
            Err(_) => {
                let mut msg = String::from_str("Invalid temporary rule lifetime: ");
                msg.append(temp_rule_lifetime.as_str());
                return Err(msg);
            },
        };

        // The daemon's own call deadline is 120 seconds; stay safely under it.
        if *connection_disposition_timeout_in > MAX_DISPOSITION_TIMEOUT {
            let mut msg: Vec<char> = Vec::new();
            push_str_chars(&mut msg, "Connection disposition timeout ");
            push_dec(&mut msg, *connection_disposition_timeout_in);
            push_str_chars(&mut msg, " cannot be over 115");
            return Err(string_from_chars(msg));
        }

        Ok(
            App {
                running: true,
                rx_pings: 0,
                peer: None,
                current_stats: None,
                current_alerts: VecDeque::new(),
                alert_list_render_offset: 0,
                broker: DispositionBroker::new(),
                bind_address,
                default_action,
                temp_rule_lifetime: temp_lifetime,
                connection_disposition_timeout: *connection_disposition_timeout_in,
                buttons: Vec::new(),
            },
        )
    }

    /// Whether a tick at `now` evicts the front alert: only the oldest alert
    /// is inspected, and it leaves once its age reaches sixty seconds.
    /// Ingestion appends and eviction pops the front, so the queue stays
    /// age-sorted and this one check per tick suffices.
    pub open spec fn tick_evicts(q: Seq<Alert>, now: u64) -> bool {
        q.len() > 0 && q[0].timestamp <= now && now - q[0].timestamp >= 60
    }

    /// The render offset after a front eviction: an offset that pointed at
    /// the old tail position is pulled back (stopping at zero) so it stays a
    /// valid index into what remains; any other offset keeps its value.
    pub open spec fn offset_after_evict(offset: usize, pre_len: nat) -> usize {
        if offset + 1 == pre_len {
            if offset == 0 {
                0usize
            } else {
                (offset - 1) as usize
            }
        } else {
            offset
        }
    }

    /// One clock tick: clears a disposition whose deadline has passed — never
    /// one still in time — and evicts the front alert once it is sixty
    /// seconds old, clamping the render offset. Returns whether anything
    /// observable changed, so the caller knows a redraw is warranted.
    pub fn tick(&mut self, now: u64) -> (changed: bool)
        ensures
            ({
                let expired = old(self).broker.pending matches Some(p) && now >= p.expiry;
                let q = old(self).current_alerts@;
                let evict = Self::tick_evicts(q, now);
                &&& changed == (expired || evict)
                &&& final(self).broker.pending == if expired {
                    None::<crate::broker::PendingDisposition>
                } else {
                    old(self).broker.pending
                }
                &&& final(self).current_alerts@ == if evict {
                    q.drop_first()
                } else {
                    q
                }
                &&& final(self).alert_list_render_offset == if evict {
                    Self::offset_after_evict(old(self).alert_list_render_offset, q.len())
                } else {
                    old(self).alert_list_render_offset
                }
                &&& *final(self) == (App {
                    broker: final(self).broker,
                    current_alerts: final(self).current_alerts,
                    alert_list_render_offset: final(self).alert_list_render_offset,
                    ..*old(self)
                })
            }),
    {
        let mut did_work = self.broker.expire(now);

        if self.current_alerts.len() > 0 {
            let evict = {
                let front = &self.current_alerts[0];
                front.timestamp <= now && now - front.timestamp >= 60
            };
            if evict {
                // Pop the front, but first pull back a render offset that sat
                // on the back of the list.
                if self.alert_list_render_offset == self.current_alerts.len() - 1 {
                    self.alert_list_render_offset =
                        if self.alert_list_render_offset == 0 { 0 } else {
                            self.alert_list_render_offset - 1
                        };
                }
                let _ = self.current_alerts.pop_front();
                did_work = true;
            }
        }

        did_work
    }

    /// Stops the loop.
    pub fn quit(&mut self)
        ensures
            *final(self) == (App { running: false, ..*old(self) }),
    {
        self.running = false;
    }

    /// Takes a ping's statistics and peer address, counting the ping.
    pub fn update_stats(&mut self, ping_event: PingEvent)
        ensures
            *final(self) == (App {
                rx_pings: if old(self).rx_pings == u64::MAX {
                    u64::MAX
                } else {
                    (old(self).rx_pings + 1) as u64
                },
                peer: ping_event.peer,
                current_stats: Some(ping_event.stats),
                ..*old(self)
            }),
    {
        self.rx_pings = self.rx_pings.saturating_add(1);
        self.peer = ping_event.peer;
        self.current_stats = Some(ping_event.stats);
    }

    /// Replaces the clickable button areas with what the presentation layer
    /// laid out for this frame.
    pub fn set_buttons(&mut self, buttons: Vec<Button>)
        ensures
            *final(self) == (App { buttons, ..*old(self) }),
    {
        self.buttons = buttons;
    }

    /// The rule the operator's choice synthesizes for the pending connection:
    /// a simple destination rule, or nothing when no connection is trapped.
    pub fn make_rule(&self, action: Action, duration: Duration) -> (r: Option<Rule>)
        ensures
            match self.broker.pending {
                None => r is None,
                Some(p) => r matches Some(rule) && is_simple_rule(
                    rule,
                    p.connection,
                    action,
                    duration,
                ),
            },
    {
        match &self.broker.pending {
            None => None,
            Some(p) => Some(synthesize(&p.connection, action, duration)),
        }
    }

    /// Synthesizes the rule for the pending connection and delivers it
    /// through the broker, clearing the slot; with nothing pending this does
    /// nothing. Returns whether a pending connection was dispositioned.
    pub fn make_and_send_rule(&mut self, action: Action, duration: Duration) -> (resolved: bool)
        ensures
            resolved == (old(self).broker.pending is Some),
            rule_decision(*old(self), *final(self)),
    {
        let maybe_rule = self.make_rule(action, duration);
        match maybe_rule {
            Some(rule) => {
                // A receiver gone by now means the request was abandoned; the
                // decision is dropped, as a late decision would be.
                let _ = self.broker.resolve(rule);
                true
            },
            None => false,
        }
    }

    /// Applies one key press: control-c asks to quit, `t` asks for a probe
    /// notification, `a`/`d` disposition the pending connection with the
    /// configured temporary lifetime, `j`/`l` disposition it permanently, and
    /// the arrows move the alert scroll offset within the queue.
    pub fn handle_key(&mut self, key: KeyInput) -> (cmd: Option<KeyCommand>)
        ensures
            match key {
                KeyInput::Ctrl(c) => if c == 'c' || c == 'C' {
                    cmd == Some(KeyCommand::Quit) && *final(self) == *old(self)
                } else {
                    cmd is None && *final(self) == *old(self)
                },
                KeyInput::Plain(c) => if c == 't' || c == 'T' {
                    cmd == Some(KeyCommand::TestNotify) && *final(self) == *old(self)
                } else if c == 'a' || c == 'A' || c == 'd' || c == 'D' || c == 'j' || c == 'J'
                    || c == 'l' || c == 'L' {
                    cmd is None && rule_decision(*old(self), *final(self))
                } else {
                    cmd is None && *final(self) == *old(self)
                },
                KeyInput::Up => cmd is None && *final(self) == (App {
                    alert_list_render_offset: if old(self).alert_list_render_offset == 0 {
                        0usize
                    } else {
                        (old(self).alert_list_render_offset - 1) as usize
                    },
                    ..*old(self)
                }),
                KeyInput::Down => cmd is None && *final(self) == (App {
                    alert_list_render_offset: if old(self).current_alerts@.len() > 0 {
                        if old(self).alert_list_render_offset + 1 < old(
                            self,
                        ).current_alerts@.len() {
                            (old(self).alert_list_render_offset + 1) as usize
                        } else {
                            (old(self).current_alerts@.len() - 1) as usize
                        }
                    } else {
                        old(self).alert_list_render_offset
                    },
                    ..*old(self)
                }),
            },
    {
        match key {
            KeyInput::Ctrl(c) => {
                if c == 'c' || c == 'C' {
                    Some(KeyCommand::Quit)
                } else {
                    None
                }
            },
            KeyInput::Plain(c) => {
                if c == 't' || c == 'T' {
                    Some(KeyCommand::TestNotify)
                } else if c == 'a' || c == 'A' {
                    let _ = self.make_and_send_rule(Action::Allow, self.temp_rule_lifetime);
                    None
                } else if c == 'd' || c == 'D' {
                    let _ = self.make_and_send_rule(Action::Deny, self.temp_rule_lifetime);
                    None
                } else if c == 'j' || c == 'J' {
                    let _ = self.make_and_send_rule(Action::Allow, Duration::Always);
                    None
                } else if c == 'l' || c == 'L' {
                    let _ = self.make_and_send_rule(Action::Deny, Duration::Always);
                    None
                } else {
                    None
                }
            },
            KeyInput::Up => {
                self.alert_list_render_offset = self.alert_list_render_offset.saturating_sub(1);
                None
            },
            KeyInput::Down => {
                if self.current_alerts.len() > 0 {
                    let bound = self.current_alerts.len() - 1;
                    let bumped = self.alert_list_render_offset.saturating_add(1);
                    self.alert_list_render_offset = if bumped < bound {
                        bumped
                    } else {
                        bound
                    };
                }
                None
            },
        }
    }

    /// Applies a released left click: the first button the click lands on
    /// dispositions the pending connection with that button's action and
    /// lifetime. Returns whether a button was hit, warranting a redraw.
    pub fn handle_mouse(&mut self, col: u16, row: u16) -> (redraw: bool)
        ensures
            redraw == (exists|i: int|
                0 <= i < old(self).buttons@.len() && button_hit(old(self).buttons@[i], col, row)),
            !redraw ==> *final(self) == *old(self),
            redraw ==> exists|i: int|
                {
                    &&& 0 <= i < old(self).buttons@.len()
                    &&& button_hit(old(self).buttons@[i], col, row)
                    &&& forall|j: int| 0 <= j < i ==> !button_hit(old(self).buttons@[j], col, row)
                    &&& rule_decision(*old(self), *final(self))
                },
    {
        let n = self.buttons.len();
        let mut i: usize = 0;
        while i < n
            invariant
                n == self.buttons@.len(),
                0 <= i <= n,
                *self == *old(self),
                forall|j: int| 0 <= j < i ==> !button_hit(self.buttons@[j], col, row),
            decreases n - i,
        {
            let btn = self.buttons[i];
            let hit = col >= btn.x && (col as u32) < (btn.x as u32) + (btn.width as u32) && row
                >= btn.y && (row as u32) < (btn.y as u32) + (btn.height as u32);
            if hit {
                let _ = self.make_and_send_rule(btn.action, btn.duration);
                return true;
            }
            i += 1;
        }
        false
    }

    /// Builds the probe notification the operator can fire toward the daemon:
    /// a task-stop notification the daemon is expected to answer with an
    /// error, exercising the reply stream.
    pub fn test_notification() -> (n: Notification)
        ensures
            n.id == 123,
            n.client_name@.len() == 0,
            n.server_name@.len() == 0,
            n.kind == 14,
            n.data@ == "Test notification triggers an error"@,
            n.rules@.len() == 0,
    {
        Notification {
            id: 123,
            client_name: String::new(),
            server_name: String::new(),
            // A task-stop notification.
            kind: 14,
            data: String::from_str("Test notification triggers an error"),
            rules: Vec::new(),
        }
    }

    /// Consumes one event: statistics and alerts mutate state, a disposition
    /// request opens the single-flight handshake (answering `AlreadyPending`
    /// through the attached channel when one is already outstanding), a probe
    /// request hands the notification back for the caller to send, and a quit
    /// request stops the loop.
    pub fn handle_event(&mut self, event: AppEvent, now: u64) -> (out: Option<Notification>)
        requires
            now + old(self).connection_disposition_timeout <= u64::MAX,
        ensures
            match event {
                AppEvent::Update(pe) => out is None && *final(self) == (App {
                    rx_pings: if old(self).rx_pings == u64::MAX {
                        u64::MAX
                    } else {
                        (old(self).rx_pings + 1) as u64
                    },
                    peer: pe.peer,
                    current_stats: Some(pe.stats),
                    ..*old(self)
                }),
                AppEvent::Alert(a) => out is None && *final(self) == (App {
                    current_alerts: final(self).current_alerts,
                    ..*old(self)
                }) && final(self).current_alerts@ == old(self).current_alerts@.push(a),
                AppEvent::AskRule(qc) => {
                    &&& out is None
                    &&& *final(self) == (App { broker: final(self).broker, ..*old(self) })
                    &&& old(self).broker.pending is Some ==> final(self).broker == old(
                        self,
                    ).broker
                    &&& old(self).broker.pending is None ==> (final(self).broker.pending
                        matches Some(p) && p.connection == qc.connection && p.expiry == now
                        + old(self).connection_disposition_timeout && p.reply == qc.reply)
                },
                AppEvent::TestNotify => *final(self) == *old(self) && (out matches Some(n)
                    && n.id == 123 && n.kind == 14 && n.data@
                    == "Test notification triggers an error"@),
                AppEvent::Quit => out is None && *final(self) == (App {
                    running: false,
                    ..*old(self)
                }),
            },
    {
        match event {
            AppEvent::Update(pe) => {
                self.update_stats(pe);
                None
            },
            AppEvent::Alert(a) => {
                self.current_alerts.push_back(a);
                None
            },
            AppEvent::AskRule(qc) => {
                let timeout = self.connection_disposition_timeout;
                match self.broker.open_request(qc.connection, qc.reply, now, timeout) {
                    Ok(()) => {},
                    Err(rejected) => {
                        // Single-flight: answer the second request at once.
                        let _ = send_reply(rejected, DispositionReply::AlreadyPending);
                    },
                }
                None
            },
            AppEvent::TestNotify => Some(Self::test_notification()),
            AppEvent::Quit => {
                self.quit();
                None
            },
        }
    }
}

} // verus!
