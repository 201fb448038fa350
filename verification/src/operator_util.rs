//! Builders for the simple match predicates that rule synthesis conjoins:
//! one `Operator` per matched connection field.

use vstd::prelude::*;

use crate::constants::{Operand, RuleType};
use crate::messages::Operator;
use crate::text::{dec_str, push_dec, string_from_chars};

verus! {

/// A childless predicate matching one operand against one datum, not marked
/// sensitive.
pub open spec fn is_simple_op(op: Operator, operand: Seq<char>, data: Seq<char>) -> bool {
    &&& op.rtype@ == RuleType::Simple.spec_str()
    &&& op.operand@ == operand
    &&& op.data@ == data
    &&& !op.sensitive
    &&& op.list@.len() == 0
}

/// Matches the user id that opened the connection.
pub fn match_user_id(uid: u32) -> (op: Operator)
    ensures
        is_simple_op(op, Operand::UserId.spec_str(), dec_str(uid as nat)),
{
    let mut data: Vec<char> = Vec::new();
    push_dec(&mut data, uid as u64);
    Operator {
        rtype: String::from_str(RuleType::Simple.get_str()),
        operand: String::from_str(Operand::UserId.get_str()),
        data: string_from_chars(data),
        sensitive: false,
        list: Vec::new(),
    }
}

/// Matches the path of the process that opened the connection.
pub fn match_proc_path(ppath: &str) -> (op: Operator)
    ensures
        is_simple_op(op, Operand::ProcessPath.spec_str(), ppath@),
{
    Operator {
        rtype: String::from_str(RuleType::Simple.get_str()),
        operand: String::from_str(Operand::ProcessPath.get_str()),
        data: ppath.to_owned(),
        sensitive: false,
        list: Vec::new(),
    }
}

/// Matches the destination address.
pub fn match_dst_ip(ip: &str) -> (op: Operator)
    ensures
        is_simple_op(op, Operand::DstIp.spec_str(), ip@),
{
    Operator {
        rtype: String::from_str(RuleType::Simple.get_str()),
        operand: String::from_str(Operand::DstIp.get_str()),
        data: ip.to_owned(),
        sensitive: false,
        list: Vec::new(),
    }
}

/// Matches the destination hostname.
pub fn match_dst_host(host: &str) -> (op: Operator)
    ensures
        is_simple_op(op, Operand::DstHost.spec_str(), host@),
{
    Operator {
        rtype: String::from_str(RuleType::Simple.get_str()),
        operand: String::from_str(Operand::DstHost.get_str()),
        data: host.to_owned(),
        sensitive: false,
        list: Vec::new(),
    }
}

/// Matches the destination port.
pub fn match_dst_port(port: u32) -> (op: Operator)
    ensures
        is_simple_op(op, Operand::DstPort.spec_str(), dec_str(port as nat)),
{
    let mut data: Vec<char> = Vec::new();
    push_dec(&mut data, port as u64);
    Operator {
        rtype: String::from_str(RuleType::Simple.get_str()),
        operand: String::from_str(Operand::DstPort.get_str()),
        data: string_from_chars(data),
        sensitive: false,
        list: Vec::new(),
    }
}

/// Matches the transport protocol.
pub fn match_protocol(protocol: &str) -> (op: Operator)
    ensures
        is_simple_op(op, Operand::Protocol.spec_str(), protocol@),
{
    Operator {
        rtype: String::from_str(RuleType::Simple.get_str()),
        operand: String::from_str(Operand::Protocol.get_str()),
        data: protocol.to_owned(),
        sensitive: false,
        list: Vec::new(),
    }
}

} // verus!
