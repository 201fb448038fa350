//! Rule synthesis: turns a connection descriptor, an action and a lifetime
//! into a canonical firewall rule.
//!
//! Two modes exist. The usual mode builds a *simple* rule matching only the
//! destination (hostname when one is known, address otherwise), keeping
//! operator-made temporary rules unobtrusive. A stricter mode conjoins five
//! simple predicates — user id, process path, destination address, destination
//! port, protocol — in that fixed order, and stores the ordered list twice in
//! the top operator: structurally in its `list` and, byte-stably, as the
//! canonical JSON text in its `data`. That text is part of the wire contract
//! toward the daemon, so its field order and escaping are fixed here.

use vstd::prelude::*;

use crate::constants::{Action, Duration, Operand, RuleType};
use crate::json::{json_bool, json_string, push_json_bool, push_json_string};
use crate::messages::{Connection, Operator, Rule};
use crate::operator_util::{
    is_simple_op, match_dst_host, match_dst_ip, match_dst_port, match_proc_path, match_protocol,
    match_user_id,
};
use crate::text::{dec_str, push_str_chars, string_from_chars};

verus! {

/// The canonical JSON object for one childless operator: fixed field order
/// `type, operand, data, sensitive, list`, the list always empty.
pub open spec fn op_json(op: Operator) -> Seq<char> {
    "{\"type\":"@ + json_string(op.rtype@) + ",\"operand\":"@ + json_string(op.operand@)
        + ",\"data\":"@ + json_string(op.data@) + ",\"sensitive\":"@ + json_bool(op.sensitive)
        + ",\"list\":[]}"@
}

/// The comma-joined operator objects of a list, in order.
pub open spec fn ops_json_items(ops: Seq<Operator>) -> Seq<char>
    decreases ops.len(),
{
    if ops.len() == 0 {
        Seq::empty()
    } else if ops.len() == 1 {
        op_json(ops[0])
    } else {
        op_json(ops[0]) + ","@ + ops_json_items(ops.drop_first())
    }
}

/// The canonical JSON array for an ordered operator list.
pub open spec fn ops_json(ops: Seq<Operator>) -> Seq<char> {
    "["@ + ops_json_items(ops) + "]"@
}

/// Appending one operator appends one comma-prefixed object.
proof fn lemma_ops_json_items_snoc(s: Seq<Operator>, x: Operator)
    requires
        s.len() >= 1,
    ensures
        ops_json_items(s + seq![x]) == ops_json_items(s) + ","@ + op_json(x),
    decreases s.len(),
{
    if s.len() == 1 {
        assert((s + seq![x]).drop_first() =~= seq![x]);
        assert((s + seq![x])[0] == s[0]);
        assert(ops_json_items(seq![x]) == op_json(x));
        assert(ops_json_items(s + seq![x]) =~= ops_json_items(s) + ","@ + op_json(x));
    } else {
        assert((s + seq![x]).drop_first() =~= s.drop_first() + seq![x]);
        assert((s + seq![x])[0] == s[0]);
        lemma_ops_json_items_snoc(s.drop_first(), x);
        assert(ops_json_items(s + seq![x]) =~= ops_json_items(s) + ","@ + op_json(x));
    }
}

/// The encoding of an operator list depends only on each operator's encoded
/// fields, not on the vectors that carry them.
proof fn lemma_ops_json_items_congruent(s1: Seq<Operator>, s2: Seq<Operator>)
    requires
        s1.len() == s2.len(),
        forall|i: int| 0 <= i < s1.len() ==> op_json(s1[i]) == op_json(s2[i]),
    ensures
        ops_json_items(s1) == ops_json_items(s2),
    decreases s1.len(),
{
    if s1.len() >= 2 {
        assert forall|i: int| 0 <= i < s1.drop_first().len() implies op_json(
            s1.drop_first()[i],
        ) == op_json(s2.drop_first()[i]) by {
            assert(s1.drop_first()[i] == s1[i + 1]);
            assert(s2.drop_first()[i] == s2[i + 1]);
        }
        lemma_ops_json_items_congruent(s1.drop_first(), s2.drop_first());
    }
}

fn push_operator(out: &mut Vec<char>, op: &Operator)
    ensures
        final(out)@ == old(out)@ + op_json(*op),
{
    push_str_chars(out, "{\"type\":");
    push_json_string(out, op.rtype.as_str());
    push_str_chars(out, ",\"operand\":");
    push_json_string(out, op.operand.as_str());
    push_str_chars(out, ",\"data\":");
    push_json_string(out, op.data.as_str());
    push_str_chars(out, ",\"sensitive\":");
    push_json_bool(out, op.sensitive);
    push_str_chars(out, ",\"list\":[]}");
    proof {
        assert(final(out)@ =~= old(out)@ + op_json(*op));
    }
}

/// Encodes an ordered operator list as its canonical JSON array.
pub fn encode_operator_list(ops: &Vec<Operator>) -> (r: String)
    ensures
        r@ == ops_json(ops@),
{
    let mut out: Vec<char> = Vec::new();
    push_str_chars(&mut out, "[");
    let n = ops.len();
    let mut i: usize = 0;
    proof {
        assert(ops@.subrange(0, 0) =~= Seq::<Operator>::empty());
        assert(out@ =~= "["@ + ops_json_items(ops@.subrange(0, 0)));
    }
    while i < n
        invariant
            n == ops@.len(),
            0 <= i <= n,
            out@ == "["@ + ops_json_items(ops@.subrange(0, i as int)),
        decreases n - i,
    {
        if i > 0 {
            push_str_chars(&mut out, ",");
        }
        push_operator(&mut out, &ops[i]);
        proof {
            assert(ops@.subrange(0, i + 1) =~= ops@.subrange(0, i as int) + seq![ops@[i as int]]);
            if i > 0 {
                lemma_ops_json_items_snoc(ops@.subrange(0, i as int), ops@[i as int]);
            } else {
                assert(ops_json_items(seq![ops@[0]]) == op_json(ops@[0]));
            }
            assert(out@ =~= "["@ + ops_json_items(ops@.subrange(0, i + 1)));
        }
        i += 1;
    }
    push_str_chars(&mut out, "]");
    proof {
        assert(ops@.subrange(0, n as int) =~= ops@);
        assert(out@ =~= ops_json(ops@));
    }
    string_from_chars(out)
}

/// The datum a simple rule matches: the destination hostname when the
/// descriptor carries one, the destination address otherwise.
pub open spec fn simple_label(conn: Connection) -> Seq<char> {
    if conn.dst_host@.len() == 0 {
        conn.dst_ip@
    } else {
        conn.dst_host@
    }
}

/// The operand key a simple rule matches on.
pub open spec fn simple_operand(conn: Connection) -> Seq<char> {
    if conn.dst_host@.len() == 0 {
        Operand::DstIp.spec_str()
    } else {
        Operand::DstHost.spec_str()
    }
}

/// The name of a simple rule: the action string, a dash, the matched datum.
pub open spec fn simple_rule_name(action: Action, label: Seq<char>) -> Seq<char> {
    action.spec_str() + "-"@ + label
}

/// The simple rule synthesized for a descriptor: a single predicate on the
/// destination — `dest.host` against the hostname when one is known,
/// `dest.ip` against the address otherwise — enabled, without precedence or
/// logging suppression, named after the action and the matched datum. Every
/// field is a function of the descriptor, the action and the lifetime alone.
pub open spec fn is_simple_rule(r: Rule, conn: Connection, action: Action, duration: Duration) -> bool {
    &&& r.created == 0
    &&& r.name@ == simple_rule_name(action, simple_label(conn))
    &&& r.description@.len() == 0
    &&& r.enabled
    &&& !r.precedence
    &&& !r.nolog
    &&& r.action@ == action.spec_str()
    &&& r.duration@ == duration.spec_str()
    &&& r.operator matches Some(op) && is_simple_op(op, simple_operand(conn), simple_label(conn))
}

/// Synthesizes the simple rule for a trapped connection. Idempotent in
/// content: re-synthesis for the same inputs pins every field to the same
/// value.
pub fn synthesize(conn: &Connection, action: Action, duration: Duration) -> (r: Rule)
    ensures
        is_simple_rule(r, *conn, action, duration),
{
    let host_known = !conn.dst_host.as_str().is_empty();
    let dst_operator = if host_known {
        match_dst_host(conn.dst_host.as_str())
    } else {
        match_dst_ip(conn.dst_ip.as_str())
    };
    let label = if host_known {
        conn.dst_host.as_str()
    } else {
        conn.dst_ip.as_str()
    };
    let mut name: Vec<char> = Vec::new();
    push_str_chars(&mut name, action.get_str());
    push_str_chars(&mut name, "-");
    push_str_chars(&mut name, label);
    Rule {
        created: 0,
        name: string_from_chars(name),
        description: String::new(),
        enabled: true,
        precedence: false,
        nolog: false,
        action: String::from_str(action.get_str()),
        duration: String::from_str(duration.get_str()),
        operator: Some(dst_operator),
    }
}

/// The five predicates of a strict list rule for a descriptor, in their fixed
/// order: user id, process path, destination address, destination port,
/// protocol.
pub open spec fn is_list_ops(ops: Seq<Operator>, conn: Connection) -> bool {
    &&& ops.len() == 5
    &&& is_simple_op(ops[0], Operand::UserId.spec_str(), dec_str(conn.user_id as nat))
    &&& is_simple_op(ops[1], Operand::ProcessPath.spec_str(), conn.process_path@)
    &&& is_simple_op(ops[2], Operand::DstIp.spec_str(), conn.dst_ip@)
    &&& is_simple_op(ops[3], Operand::DstPort.spec_str(), dec_str(conn.dst_port as nat))
    &&& is_simple_op(ops[4], Operand::Protocol.spec_str(), conn.protocol@)
}

/// The top operator of a strict list rule: the ordered predicate list held
/// structurally in `list` and serialized canonically in `data`.
pub open spec fn is_list_operator(top: Operator, conn: Connection) -> bool {
    &&& top.rtype@ == RuleType::List.spec_str()
    &&& top.operand@ == Operand::List.spec_str()
    &&& !top.sensitive
    &&& is_list_ops(top.list@, conn)
    &&& top.data@ == ops_json(top.list@)
}

/// The process path with every slash turned into a dash, as used in rule
/// names.
pub open spec fn sanitized(s: Seq<char>) -> Seq<char> {
    s.map_values(
        |c: char|
            if c == '/' {
                '-'
            } else {
                c
            },
    )
}

fn push_sanitized(out: &mut Vec<char>, s: &str)
    ensures
        final(out)@ == old(out)@ + sanitized(s@),
{
    let len = s.unicode_len();
    let mut i: usize = 0;
    while i < len
        invariant
            len == s@.len(),
            0 <= i <= len,
            out@ == old(out)@ + sanitized(s@.subrange(0, i as int)),
        decreases len - i,
    {
        let c = s.get_char(i);
        if c == '/' {
            out.push('-');
        } else {
            out.push(c);
        }
        i += 1;
        proof {
            assert(out@ =~= old(out)@ + sanitized(s@.subrange(0, i as int)));
        }
    }
    proof {
        assert(s@.subrange(0, len as int) =~= s@);
    }
}

/// The name of a strict list rule.
pub open spec fn list_rule_name(action: Action, duration: Duration, path: Seq<char>) -> Seq<char> {
    action.spec_str() + "-"@ + duration.spec_str() + "-simple-via-tui-"@ + sanitized(path)
}

/// The strict list rule synthesized for a descriptor.
pub open spec fn is_list_rule(r: Rule, conn: Connection, action: Action, duration: Duration) -> bool {
    &&& r.created == 0
    &&& r.name@ == list_rule_name(action, duration, conn.process_path@)
    &&& r.description@.len() == 0
    &&& r.enabled
    &&& !r.precedence
    &&& !r.nolog
    &&& r.action@ == action.spec_str()
    &&& r.duration@ == duration.spec_str()
    &&& r.operator matches Some(top) && is_list_operator(top, conn)
}

/// Synthesizes the strict list rule for a trapped connection: user id, process
/// path, destination address, destination port and protocol conjoined in that
/// fixed order, with the ordered list serialized byte-stably into the top
/// operator's `data`.
pub fn synthesize_list(conn: &Connection, action: Action, duration: Duration) -> (r: Rule)
    ensures
        is_list_rule(r, *conn, action, duration),
{
    let mut ops: Vec<Operator> = Vec::new();
    ops.push(match_user_id(conn.user_id));
    ops.push(match_proc_path(conn.process_path.as_str()));
    ops.push(match_dst_ip(conn.dst_ip.as_str()));
    ops.push(match_dst_port(conn.dst_port));
    ops.push(match_protocol(conn.protocol.as_str()));
    let data = encode_operator_list(&ops);
    let mut name: Vec<char> = Vec::new();
    push_str_chars(&mut name, action.get_str());
    push_str_chars(&mut name, "-");
    push_str_chars(&mut name, duration.get_str());
    push_str_chars(&mut name, "-simple-via-tui-");
    push_sanitized(&mut name, conn.process_path.as_str());
    Rule {
        created: 0,
        name: string_from_chars(name),
        description: String::new(),
        enabled: true,
        precedence: false,
        nolog: false,
        action: String::from_str(action.get_str()),
        duration: String::from_str(duration.get_str()),
        operator: Some(
            Operator {
                rtype: String::from_str(RuleType::List.get_str()),
                operand: String::from_str(Operand::List.get_str()),
                data,
                sensitive: false,
                list: ops,
            },
        ),
    }
}

/// List-rule synthesis is order-stable: any two top operators synthesized for
/// the same descriptor carry byte-identical JSON in `data`, because every
/// predicate and the field order are functions of the descriptor alone.
pub proof fn lemma_list_rule_data_stable(a: Operator, b: Operator, conn: Connection)
    requires
        is_list_operator(a, conn),
        is_list_operator(b, conn),
    ensures
        a.data@ == b.data@,
{
    assert forall|i: int| 0 <= i < a.list@.len() implies op_json(a.list@[i]) == op_json(
        b.list@[i],
    ) by {
        assert(op_json(a.list@[i]) =~= op_json(b.list@[i]));
    }
    lemma_ops_json_items_congruent(a.list@, b.list@);
}

} // verus!
