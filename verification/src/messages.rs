//! Plain models of the protocol messages exchanged with the daemon. The wire
//! schema itself is pre-existing; these structs hold, as plain values, exactly
//! the fields the library's logic reads and writes. The transport layer
//! converts between these and its generated message types.

use vstd::prelude::*;

verus! {

/// Latest daemon-reported counters.
#[derive(Debug, Clone, PartialEq)]
pub struct Statistics {
    pub daemon_version: String,
    pub rules: u64,
    pub uptime: u64,
    pub dns_responses: u64,
    pub connections: u64,
    pub ignored: u64,
    pub accepted: u64,
    pub dropped: u64,
    pub rule_hits: u64,
    pub rule_misses: u64,
}

/// A connection descriptor, immutable once received.
#[derive(Debug, Clone, PartialEq)]
pub struct Connection {
    pub protocol: String,
    pub src_ip: String,
    pub src_port: u32,
    pub dst_ip: String,
    pub dst_host: String,
    pub dst_port: u32,
    pub user_id: u32,
    pub process_id: u32,
    pub process_path: String,
    pub process_cwd: String,
    pub process_args: Vec<String>,
    pub process_env: Vec<(String, String)>,
    pub process_checksums: Vec<(String, String)>,
    pub process_tree: Vec<String>,
}

/// A single match predicate (or list of predicates) inside a firewall rule.
#[derive(Debug, PartialEq)]
pub struct Operator {
    pub rtype: String,
    pub operand: String,
    pub data: String,
    pub sensitive: bool,
    pub list: Vec<Operator>,
}

/// A firewall rule returned to the daemon.
#[derive(Debug, PartialEq)]
pub struct Rule {
    pub created: i64,
    pub name: String,
    pub description: String,
    pub enabled: bool,
    pub precedence: bool,
    pub nolog: bool,
    pub action: String,
    pub duration: String,
    pub operator: Option<Operator>,
}

/// A server-to-daemon notification.
#[derive(Debug, PartialEq)]
pub struct Notification {
    pub id: u64,
    pub client_name: String,
    pub server_name: String,
    pub kind: i32,
    pub data: String,
    pub rules: Vec<Rule>,
}

/// The configuration blob a subscribing client presents, echoed back with the
/// `config` field rewritten.
#[derive(Debug, Clone, PartialEq)]
pub struct ClientConfig {
    pub id: u64,
    pub name: String,
    pub version: String,
    pub is_firewall_running: bool,
    pub config: String,
    pub log_level: u32,
}

/// The payload of a daemon-posted alert.
#[derive(Debug, Clone, PartialEq)]
pub enum AlertData {
    /// A plain text message.
    Text(String),
    /// Any payload variant the presentation layer does not render.
    Unsupported,
}

/// A daemon-posted alert as received from the wire.
#[derive(Debug, Clone, PartialEq)]
pub struct AlertMessage {
    pub id: u64,
    pub priority: i32,
    pub kind: i32,
    pub what: i32,
    pub data: Option<AlertData>,
}

/// A daemon health ping.
#[derive(Debug, Clone, PartialEq)]
pub struct PingRequest {
    pub id: u64,
    pub stats: Option<Statistics>,
}

/// Acknowledgement of a ping, echoing its id.
#[derive(Debug, Clone, PartialEq)]
pub struct PingReply {
    pub id: u64,
}

/// Acknowledgement of a posted alert, echoing its id.
#[derive(Debug, Clone, PartialEq)]
pub struct MsgResponse {
    pub id: u64,
}

} // verus!
