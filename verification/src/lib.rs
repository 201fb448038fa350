//! Verified core of a terminal-side control plane for a host outbound-connection
//! firewall daemon.
//!
//! The daemon reports new connections, health statistics and alerts; an operator
//! answers each trapped connection with a firewall rule before a deadline. This
//! crate holds the verified logic of that exchange: canonical rule synthesis,
//! the single-flight disposition broker, the age-bounded alert queue, the
//! notification-sender registry, and the operator loop's state transitions.
//! Transport, terminal drawing and file logging live outside the library.

pub mod alert;
pub mod app;
pub mod broker;
pub mod channels;
pub mod constants;
pub mod event;
pub mod json;
pub mod log;
pub mod messages;
pub mod opensnitch_json;
pub mod operator_util;
pub mod registry;
pub mod rules;
pub mod server;
pub mod text;
