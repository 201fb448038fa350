//! Operator-facing alerts: the classification enums, the alert record kept in
//! the age-bounded queue, and the conversion from a wire alert message.
//!
//! Timestamps throughout are seconds on the clock the caller samples; the
//! library only ever compares and subtracts them.

use vstd::prelude::*;

use crate::messages::{AlertData, AlertMessage};

verus! {

/// Urgency of an alert.
#[derive(Debug, Clone, Copy, PartialEq, Eq, Structural)]
pub enum Priority {
    Low,
    Medium,
    High,
}

/// The priority encoded by a wire value.
pub open spec fn priority_of(v: i32) -> Priority {
    if v == 0 {
        Priority::Low
    } else if v == 1 {
        Priority::Medium
    } else {
        Priority::High
    }
}

impl Priority {
    /// Decodes the wire encoding of a priority.
    pub fn new(v: i32) -> (r: Priority)
        ensures
            r == priority_of(v),
    {
        match v {
            0 => Priority::Low,
            1 => Priority::Medium,
            _ => Priority::High,
        }
    }
}

/// Severity class of an alert.
#[derive(Debug, Clone, Copy, PartialEq, Eq, Structural)]
pub enum Type {
    Error,
    Warning,
    Info,
}

/// The severity class encoded by a wire value.
pub open spec fn type_of(v: i32) -> Type {
    if v == 0 {
        Type::Error
    } else if v == 1 {
        Type::Warning
    } else {
        Type::Info
    }
}

impl Type {
    /// Decodes the wire encoding of a severity class.
    pub fn new(v: i32) -> (r: Type)
        ensures
            r == type_of(v),
    {
        match v {
            0 => Type::Error,
            1 => Type::Warning,
            _ => Type::Info,
        }
    }
}

/// Subsystem an alert speaks of.
#[derive(Debug, Clone, Copy, PartialEq, Eq, Structural)]
pub enum What {
    Generic,
    ProcMonitor,
    Firewall,
    Connection,
    Rule,
    Netlink,
    KernelEvent,
}

/// The subsystem encoded by a wire value.
pub open spec fn what_of(v: i32) -> What {
    if v == 0 {
        What::Generic
    } else if v == 1 {
        What::ProcMonitor
    } else if v == 2 {
        What::Firewall
    } else if v == 3 {
        What::Connection
    } else if v == 4 {
        What::Rule
    } else if v == 5 {
        What::Netlink
    } else if v == 6 {
        What::KernelEvent
    } else {
        What::Generic
    }
}

impl What {
    /// Decodes the wire encoding of a subsystem.
    pub fn new(v: i32) -> (r: What)
        ensures
            r == what_of(v),
    {
        match v {
            0 => What::Generic,
            1 => What::ProcMonitor,
            2 => What::Firewall,
            3 => What::Connection,
            4 => What::Rule,
            5 => What::Netlink,
            6 => What::KernelEvent,
            _ => What::Generic,
        }
    }
}

/// One alert in the operator-facing queue, read-only after ingestion.
#[derive(Debug, Clone, PartialEq)]
pub struct Alert {
    /// Ingestion time, in seconds.
    pub timestamp: u64,
    pub priority: Priority,
    pub kind: Type,
    pub what: What,
    pub msg: String,
}

/// The message text shown for a wire alert payload.
pub open spec fn alert_msg_of(data: Option<AlertData>) -> Seq<char> {
    match data {
        Some(AlertData::Text(v)) => v@,
        Some(AlertData::Unsupported) => "unsupported alert data"@,
        None => "no data"@,
    }
}

impl Alert {
    /// Builds the queue record for a wire alert received at `ts`.
    pub fn new(ts: u64, proto: &AlertMessage) -> (r: Alert)
        ensures
            r.timestamp == ts,
            r.priority == priority_of(proto.priority),
            r.kind == type_of(proto.kind),
            r.what == what_of(proto.what),
            r.msg@ == alert_msg_of(proto.data),
    {
        let msg = match &proto.data {
            Some(AlertData::Text(v)) => v.clone(),
            Some(AlertData::Unsupported) => String::from_str("unsupported alert data"),
            None => String::from_str("no data"),
        };
        Alert {
            timestamp: ts,
            priority: Priority::new(proto.priority),
            kind: Type::new(proto.kind),
            what: What::new(proto.what),
            msg,
        }
    }
}

} // verus!
