//! The daemon vocabulary: option parsing, wire strings, and the rejection
//! message.

use opensnitch_tui::constants::{Action, BadOption, DefaultAction, Duration, Operand, RuleType};

#[test]
fn action_accepts_each_wire_string() {
    let cases = [
        ("allow", "allow"),
        ("deny", "deny"),
        ("reject", "reject"),
        ("accept", "accept"),
        ("drop", "drop"),
        ("jump", "jump"),
        ("redirect", "redirect"),
        ("return", "return"),
        ("tproxy", "tproxy"),
        ("snat", "snat"),
        ("dnat", "dnat"),
        ("masquerade", "masquerade"),
        ("queue", "queue"),
        ("log", "log"),
        ("stop", "stop"),
    ];
    for (input, expected) in cases {
        let action = Action::new(input).expect("valid action rejected");
        assert_eq!(action.get_str(), expected);
    }
}

#[test]
fn action_rejects_unknown_string() {
    let err = Action::new("ALLOW").unwrap_err();
    assert_eq!(err.input, "ALLOW");
    let err = Action::new("").unwrap_err();
    assert_eq!(err.input, "");
}

#[test]
fn duration_accepts_each_wire_string() {
    let cases = [
        "until restart",
        "always",
        "once",
        "12h",
        "1h",
        "30m",
        "15m",
        "5m",
        "30s",
    ];
    for input in cases {
        let duration = Duration::new(input).expect("valid duration rejected");
        assert_eq!(duration.get_str(), input);
    }
}

#[test]
fn duration_rejects_unknown_string() {
    let err = Duration::new("2h").unwrap_err();
    assert_eq!(err.input, "2h");
}

#[test]
fn default_action_is_the_narrow_subset() {
    assert_eq!(DefaultAction::new("allow").unwrap().get_str(), "allow");
    assert_eq!(DefaultAction::new("deny").unwrap().get_str(), "deny");
    assert_eq!(DefaultAction::new("reject").unwrap().get_str(), "reject");
    assert!(DefaultAction::new("drop").is_err());
    assert!(DefaultAction::new("accept").is_err());
}

#[test]
fn operand_and_rule_type_wire_strings() {
    assert_eq!(Operand::UserId.get_str(), "user.id");
    assert_eq!(Operand::ProcessPath.get_str(), "process.path");
    assert_eq!(Operand::DstIp.get_str(), "dest.ip");
    assert_eq!(Operand::DstHost.get_str(), "dest.host");
    assert_eq!(Operand::DstPort.get_str(), "dest.port");
    assert_eq!(Operand::Protocol.get_str(), "protocol");
    assert_eq!(Operand::List.get_str(), "list");
    assert_eq!(RuleType::Simple.get_str(), "simple");
    assert_eq!(RuleType::List.get_str(), "list");
}

#[test]
fn bad_option_message_names_the_input() {
    let err = BadOption {
        input: String::from("2h"),
    };
    assert_eq!(err.message(), "Bad Option: 2h");
}
