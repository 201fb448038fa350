//! Enumerations of the vocabulary the daemon understands: rule operands, rule
//! kinds, actions, rule lifetimes and default actions, each with its wire
//! string, plus the error type for a rejected option string.

use vstd::prelude::*;

use crate::text::str_eq;

verus! {

/// Operand keys that label a firewall rule's match predicate.
#[derive(Debug, Clone, Copy, PartialEq, Eq, Structural)]
pub enum Operand {
    ProcessId,
    ProcessPath,
    ProcessCmd,
    ProcessEnv,
    ProcessHashMd5,
    ProcessHashSha1,
    UserId,
    IfaceOut,
    IfaceIn,
    SrcIp,
    SrcPort,
    DstIp,
    DstHost,
    DstPort,
    DstNetwork,
    SrcNetwork,
    Protocol,
    List,
    ListDomains,
    ListDomainsRegexp,
    ListIps,
    ListNets,
}

impl Operand {
    /// The wire string of each operand key.
    pub open spec fn spec_str(self) -> Seq<char> {
        match self {
            Operand::ProcessId => "process.id"@,
            Operand::ProcessPath => "process.path"@,
            Operand::ProcessCmd => "process.command"@,
            Operand::ProcessEnv => "process.env."@,
            Operand::ProcessHashMd5 => "process.hash.md5"@,
            Operand::ProcessHashSha1 => "process.hash.sha1"@,
            Operand::UserId => "user.id"@,
            Operand::IfaceOut => "iface.out"@,
            Operand::IfaceIn => "iface.in"@,
            Operand::SrcIp => "source.ip"@,
            Operand::SrcPort => "source.port"@,
            Operand::DstIp => "dest.ip"@,
            Operand::DstHost => "dest.host"@,
            Operand::DstPort => "dest.port"@,
            Operand::DstNetwork => "dest.network"@,
            Operand::SrcNetwork => "source.network"@,
            Operand::Protocol => "protocol"@,
            Operand::List => "list"@,
            Operand::ListDomains => "lists.domains"@,
            Operand::ListDomainsRegexp => "lists.domains_regexp"@,
            Operand::ListIps => "lists.ips"@,
            Operand::ListNets => "lists.nets"@,
        }
    }

    /// Enum as string for the daemon.
    pub fn get_str(&self) -> (r: &str)
        ensures
            r@ == self.spec_str(),
    {
        match self {
            Operand::ProcessId => "process.id",
            Operand::ProcessPath => "process.path",
            Operand::ProcessCmd => "process.command",
            Operand::ProcessEnv => "process.env.",
            Operand::ProcessHashMd5 => "process.hash.md5",
            Operand::ProcessHashSha1 => "process.hash.sha1",
            Operand::UserId => "user.id",
            Operand::IfaceOut => "iface.out",
            Operand::IfaceIn => "iface.in",
            Operand::SrcIp => "source.ip",
            Operand::SrcPort => "source.port",
            Operand::DstIp => "dest.ip",
            Operand::DstHost => "dest.host",
            Operand::DstPort => "dest.port",
            Operand::DstNetwork => "dest.network",
            Operand::SrcNetwork => "source.network",
            Operand::Protocol => "protocol",
            Operand::List => "list",
            Operand::ListDomains => "lists.domains",
            Operand::ListDomainsRegexp => "lists.domains_regexp",
            Operand::ListIps => "lists.ips",
            Operand::ListNets => "lists.nets",
        }
    }
}

/// Firewall rule type hint.
#[derive(Debug, Clone, Copy, PartialEq, Eq, Structural)]
pub enum RuleType {
    List,
    Lists,
    Simple,
    Regexp,
    Network,
}

impl RuleType {
    /// The wire string of each rule type.
    pub open spec fn spec_str(self) -> Seq<char> {
        match self {
            RuleType::List => "list"@,
            RuleType::Lists => "lists"@,
            RuleType::Simple => "simple"@,
            RuleType::Regexp => "regexp"@,
            RuleType::Network => "network"@,
        }
    }

    /// Enum as string for the daemon.
    pub fn get_str(&self) -> (r: &str)
        ensures
            r@ == self.spec_str(),
    {
        match self {
            RuleType::List => "list",
            RuleType::Lists => "lists",
            RuleType::Simple => "simple",
            RuleType::Regexp => "regexp",
            RuleType::Network => "network",
        }
    }
}

/// Firewall rule actions.
/// A daemon's "default actions" set is a narrower subset of this list, see
/// `DefaultAction`.
#[derive(Debug, Clone, Copy, PartialEq, Eq, Structural)]
pub enum Action {
    Allow,
    Deny,
    Reject,
    Accept,
    Drop,
    Jump,
    Redirect,
    Return,
    TProxy,
    Snat,
    Dnat,
    Masquerade,
    Queue,
    Log,
    Stop,
}

/// The action named by an option string, if any.
pub open spec fn action_of(s: Seq<char>) -> Option<Action> {
    if s == "allow"@ {
        Some(Action::Allow)
    } else if s == "deny"@ {
        Some(Action::Deny)
    } else if s == "reject"@ {
        Some(Action::Reject)
    } else if s == "accept"@ {
        Some(Action::Accept)
    } else if s == "drop"@ {
        Some(Action::Drop)
    } else if s == "jump"@ {
        Some(Action::Jump)
    } else if s == "redirect"@ {
        Some(Action::Redirect)
    } else if s == "return"@ {
        Some(Action::Return)
    } else if s == "tproxy"@ {
        Some(Action::TProxy)
    } else if s == "snat"@ {
        Some(Action::Snat)
    } else if s == "dnat"@ {
        Some(Action::Dnat)
    } else if s == "masquerade"@ {
        Some(Action::Masquerade)
    } else if s == "queue"@ {
        Some(Action::Queue)
    } else if s == "log"@ {
        Some(Action::Log)
    } else if s == "stop"@ {
        Some(Action::Stop)
    } else {
        None
    }
}

impl Action {
    /// The wire string of each action.
    pub open spec fn spec_str(self) -> Seq<char> {
        match self {
            Action::Allow => "allow"@,
            Action::Deny => "deny"@,
            Action::Reject => "reject"@,
            Action::Accept => "accept"@,
            Action::Drop => "drop"@,
            Action::Jump => "jump"@,
            Action::Redirect => "redirect"@,
            Action::Return => "return"@,
            Action::TProxy => "tproxy"@,
            Action::Snat => "snat"@,
            Action::Dnat => "dnat"@,
            Action::Masquerade => "masquerade"@,
            Action::Queue => "queue"@,
            Action::Log => "log"@,
            Action::Stop => "stop"@,
        }
    }

    /// Validates an option string and returns the action it names.
    pub fn new(s: &str) -> (r: Result<Action, BadOption>)
        ensures
            match r {
                Ok(a) => action_of(s@) == Some(a),
                Err(e) => action_of(s@) is None && e.input@ == s@,
            },
    {
        if str_eq(s, "allow") {
            Ok(Action::Allow)
        } else if str_eq(s, "deny") {
            Ok(Action::Deny)
        } else if str_eq(s, "reject") {
            Ok(Action::Reject)
        } else if str_eq(s, "accept") {
            Ok(Action::Accept)
        } else if str_eq(s, "drop") {
            Ok(Action::Drop)
        } else if str_eq(s, "jump") {
            Ok(Action::Jump)
        } else if str_eq(s, "redirect") {
            Ok(Action::Redirect)
        } else if str_eq(s, "return") {
            Ok(Action::Return)
        } else if str_eq(s, "tproxy") {
            Ok(Action::TProxy)
        } else if str_eq(s, "snat") {
            Ok(Action::Snat)
        } else if str_eq(s, "dnat") {
            Ok(Action::Dnat)
        } else if str_eq(s, "masquerade") {
            Ok(Action::Masquerade)
        } else if str_eq(s, "queue") {
            Ok(Action::Queue)
        } else if str_eq(s, "log") {
            Ok(Action::Log)
        } else if str_eq(s, "stop") {
            Ok(Action::Stop)
        } else {
            Err(BadOption { input: s.to_owned() })
        }
    }

    /// Enum as string for the daemon.
    pub fn get_str(&self) -> (r: &str)
        ensures
            r@ == self.spec_str(),
    {
        match self {
            Action::Allow => "allow",
            Action::Deny => "deny",
            Action::Reject => "reject",
            Action::Accept => "accept",
            Action::Drop => "drop",
            Action::Jump => "jump",
            Action::Redirect => "redirect",
            Action::Return => "return",
            Action::TProxy => "tproxy",
            Action::Snat => "snat",
            Action::Dnat => "dnat",
            Action::Masquerade => "masquerade",
            Action::Queue => "queue",
            Action::Log => "log",
            Action::Stop => "stop",
        }
    }
}

/// Lifetimes a firewall rule may be given.
#[derive(Debug, Clone, Copy, PartialEq, Eq, Structural)]
pub enum Duration {
    UntilRestart,
    Always,
    Once,
    Hours12,
    Hours1,
    Minutes30,
    Minutes15,
    Minutes5,
    Seconds30,
}

/// The rule lifetime named by an option string, if any.
pub open spec fn duration_of(s: Seq<char>) -> Option<Duration> {
    if s == "until restart"@ {
        Some(Duration::UntilRestart)
    } else if s == "always"@ {
        Some(Duration::Always)
    } else if s == "once"@ {
        Some(Duration::Once)
    } else if s == "12h"@ {
        Some(Duration::Hours12)
    } else if s == "1h"@ {
        Some(Duration::Hours1)
    } else if s == "30m"@ {
        Some(Duration::Minutes30)
    } else if s == "15m"@ {
        Some(Duration::Minutes15)
    } else if s == "5m"@ {
        Some(Duration::Minutes5)
    } else if s == "30s"@ {
        Some(Duration::Seconds30)
    } else {
        None
    }
}

impl Duration {
    /// The wire string of each rule lifetime.
    pub open spec fn spec_str(self) -> Seq<char> {
        match self {
            Duration::UntilRestart => "until restart"@,
            Duration::Always => "always"@,
            Duration::Once => "once"@,
            Duration::Hours12 => "12h"@,
            Duration::Hours1 => "1h"@,
            Duration::Minutes30 => "30m"@,
            Duration::Minutes15 => "15m"@,
            Duration::Minutes5 => "5m"@,
            Duration::Seconds30 => "30s"@,
        }
    }

    /// Validates an option string and returns the rule lifetime it names.
    pub fn new(s: &str) -> (r: Result<Duration, BadOption>)
        ensures
            match r {
                Ok(d) => duration_of(s@) == Some(d),
                Err(e) => duration_of(s@) is None && e.input@ == s@,
            },
    {
        if str_eq(s, "until restart") {
            Ok(Duration::UntilRestart)
        } else if str_eq(s, "always") {
            Ok(Duration::Always)
        } else if str_eq(s, "once") {
            Ok(Duration::Once)
        } else if str_eq(s, "12h") {
            Ok(Duration::Hours12)
        } else if str_eq(s, "1h") {
            Ok(Duration::Hours1)
        } else if str_eq(s, "30m") {
            Ok(Duration::Minutes30)
        } else if str_eq(s, "15m") {
            Ok(Duration::Minutes15)
        } else if str_eq(s, "5m") {
            Ok(Duration::Minutes5)
        } else if str_eq(s, "30s") {
            Ok(Duration::Seconds30)
        } else {
            Err(BadOption { input: s.to_owned() })
        }
    }

    /// Enum as string for the daemon.
    pub fn get_str(&self) -> (r: &str)
        ensures
            r@ == self.spec_str(),
    {
        match self {
            Duration::UntilRestart => "until restart",
            Duration::Always => "always",
            Duration::Once => "once",
            Duration::Hours12 => "12h",
            Duration::Hours1 => "1h",
            Duration::Minutes30 => "30m",
            Duration::Minutes15 => "15m",
            Duration::Minutes5 => "5m",
            Duration::Seconds30 => "30s",
        }
    }
}

/// The actions a daemon may fall back to when no disposition arrives in time.
#[derive(Debug, Clone, Copy, PartialEq, Eq, Structural)]
pub enum DefaultAction {
    Allow,
    Deny,
    Reject,
}

/// The default action named by an option string, if any.
pub open spec fn default_action_of(s: Seq<char>) -> Option<DefaultAction> {
    if s == "allow"@ {
        Some(DefaultAction::Allow)
    } else if s == "deny"@ {
        Some(DefaultAction::Deny)
    } else if s == "reject"@ {
        Some(DefaultAction::Reject)
    } else {
        None
    }
}

impl DefaultAction {
    /// The wire string of each default action.
    pub open spec fn spec_str(self) -> Seq<char> {
        match self {
            DefaultAction::Allow => "allow"@,
            DefaultAction::Deny => "deny"@,
            DefaultAction::Reject => "reject"@,
        }
    }

    /// Validates an option string and returns the default action it names.
    pub fn new(s: &str) -> (r: Result<DefaultAction, BadOption>)
        ensures
            match r {
                Ok(a) => default_action_of(s@) == Some(a),
                Err(e) => default_action_of(s@) is None && e.input@ == s@,
            },
    {
        if str_eq(s, "allow") {
            Ok(DefaultAction::Allow)
        } else if str_eq(s, "deny") {
            Ok(DefaultAction::Deny)
        } else if str_eq(s, "reject") {
            Ok(DefaultAction::Reject)
        } else {
            Err(BadOption { input: s.to_owned() })
        }
    }

    /// Enum as string for the daemon.
    pub fn get_str(&self) -> (r: &str)
        ensures
            r@ == self.spec_str(),
    {
        match self {
            DefaultAction::Allow => "allow",
            DefaultAction::Deny => "deny",
            DefaultAction::Reject => "reject",
        }
    }
}

/// Error type for a bad option string handed to an enum constructor.
#[derive(Debug, Clone)]
pub struct BadOption {
    pub input: String,
}

impl BadOption {
    /// The rejection rendered as one line of text.
    pub fn message(&self) -> (r: String)
        ensures
            r@ == "Bad Option: "@ + self.input@,
    {
        let mut out = String::from_str("Bad Option: ");
        out.append(self.input.as_str());
        out
    }
}

} // verus!
