//! The daemon-side configuration blob echoed to a subscribing client. Only
//! the one key the daemon acts on is populated, and its encoding is the
//! canonical JSON object fixed here.

use vstd::prelude::*;

use crate::json::{json_string, push_json_string};
use crate::text::{push_str_chars, string_from_chars};

verus! {

/// The daemon's configuration, reduced to the field this server rewrites.
#[allow(non_snake_case)]
#[derive(Debug, Clone, PartialEq)]
pub struct OpenSnitchDaemonConfig {
    pub DefaultAction: String,
}

/// The canonical JSON object for a configuration whose only populated key is
/// the default action string.
pub open spec fn daemon_config_json(action: Seq<char>) -> Seq<char> {
    "{\"DefaultAction\":"@ + json_string(action) + "}"@
}

impl OpenSnitchDaemonConfig {
    /// Encodes the configuration as its canonical JSON object.
    pub fn encode(&self) -> (r: String)
        ensures
            r@ == daemon_config_json(self.DefaultAction@),
    {
        let mut out: Vec<char> = Vec::new();
        push_str_chars(&mut out, "{\"DefaultAction\":");
        push_json_string(&mut out, self.DefaultAction.as_str());
        push_str_chars(&mut out, "}");
        proof {
            assert(out@ =~= daemon_config_json(self.DefaultAction@));
        }
        string_from_chars(out)
    }
}

} // verus!
