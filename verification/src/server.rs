//! The request server's decisions: each inbound call of the protocol is
//! translated here, from plain values to plain values, into the event it
//! publishes and the reply it owes. The transport that carries the calls —
//! and the task-per-call scheduling around them — stays outside the library
//! and hands every observation in as an argument.

use vstd::prelude::*;

use crate::alert::{alert_msg_of, priority_of, type_of, what_of, Alert, Priority, Type, What};
use crate::constants::DefaultAction;
use crate::event::PingEvent;
use crate::messages::{AlertMessage, ClientConfig, MsgResponse, PingReply, PingRequest};
use crate::opensnitch_json::{daemon_config_json, OpenSnitchDaemonConfig};

verus! {

/// The wire value of the notification-reply code that signals an error.
pub const NOTIFICATION_REPLY_ERROR: i32 = 1;

/// The protocol-facing server. It owns nothing: each call's work is a
/// function of its arguments, so one value of this type serves every
/// concurrent call.
#[derive(Debug)]
pub struct OpenSnitchUIServer {}

impl Default for OpenSnitchUIServer {
    fn default() -> (r: OpenSnitchUIServer)
        ensures
            r == (OpenSnitchUIServer {  }),
    {
        OpenSnitchUIServer {  }
    }
}

/// Translates a health ping into the statistics event it publishes and the
/// acknowledgement it returns, echoing the ping's id.
pub fn handle_ping(req: PingRequest, peer: Option<String>) -> (r: (PingEvent, PingReply))
    requires
        req.stats is Some,
    ensures
        r.0.peer == peer,
        req.stats matches Some(s) && r.0.stats == s,
        r.1.id == req.id,
{
    let id = req.id;
    let stats = match req.stats {
        Some(s) => s,
        None => unreached(),
    };
    (PingEvent { peer, stats }, PingReply { id })
}

/// Translates a posted alert into the queue record it publishes, stamped with
/// the ingestion time, and the acknowledgement it returns.
pub fn handle_post_alert(req: &AlertMessage, now: u64) -> (r: (Alert, MsgResponse))
    ensures
        r.0.timestamp == now,
        r.0.priority == priority_of(req.priority),
        r.0.kind == type_of(req.kind),
        r.0.what == what_of(req.what),
        r.0.msg@ == alert_msg_of(req.data),
        r.1.id == req.id,
{
    (Alert::new(now, req), MsgResponse { id: req.id })
}

/// Echoes a subscribing client's configuration, rewriting the one field the
/// daemon reads back: the configuration blob becomes the canonical JSON
/// object holding only the configured default action.
pub fn subscribe_reply(req: &ClientConfig, default_action: DefaultAction) -> (r: ClientConfig)
    ensures
        r.id == req.id,
        r.name@ == req.name@,
        r.version@ == req.version@,
        r.is_firewall_running == req.is_firewall_running,
        r.log_level == req.log_level,
        r.config@ == daemon_config_json(default_action.spec_str()),
{
    let config = OpenSnitchDaemonConfig {
        DefaultAction: String::from_str(default_action.get_str()),
    };
    ClientConfig {
        id: req.id,
        name: req.name.clone(),
        version: req.version.clone(),
        is_firewall_running: req.is_firewall_running,
        config: config.encode(),
        log_level: req.log_level,
    }
}

/// Turns an inbound notification reply into the alert it raises: a reply
/// carrying the error code becomes a medium-priority error alert holding the
/// reply's data, and any other reply raises nothing.
pub fn reply_code_alert(code: i32, data: String, now: u64) -> (r: Option<Alert>)
    ensures
        if code == NOTIFICATION_REPLY_ERROR {
            r matches Some(a) && a.timestamp == now && a.priority == Priority::Medium && a.kind
                == Type::Error && a.what == What::Generic && a.msg@ == data@
        } else {
            r is None
        },
{
    if code == NOTIFICATION_REPLY_ERROR {
        Some(
            Alert {
                timestamp: now,
                priority: Priority::Medium,
                kind: Type::Error,
                what: What::Generic,
                msg: data,
            },
        )
    } else {
        None
    }
}

/// The high-priority warning raised when the daemon closes its notification
/// stream.
pub fn stream_closed_alert(now: u64) -> (a: Alert)
    ensures
        a.timestamp == now,
        a.priority == Priority::High,
        a.kind == Type::Warning,
        a.what == What::Generic,
        a.msg@ == "gRPC stream closed by daemon"@,
{
    Alert {
        timestamp: now,
        priority: Priority::High,
        kind: Type::Warning,
        what: What::Generic,
        msg: String::from_str("gRPC stream closed by daemon"),
    }
}

/// The high-priority warning raised when the notification stream fails with
/// a transport error, carrying the error's text.
pub fn stream_error_alert(now: u64, err: &str) -> (a: Alert)
    ensures
        a.timestamp == now,
        a.priority == Priority::High,
        a.kind == Type::Warning,
        a.what == What::Generic,
        a.msg@ == "gRPC error from daemon: "@ + err@,
{
    let mut msg = String::from_str("gRPC error from daemon: ");
    msg.append(err);
    Alert {
        timestamp: now,
        priority: Priority::High,
        kind: Type::Warning,
        what: What::Generic,
        msg,
    }
}

} // verus!
