//! Container types.

use vstd::prelude::*;

use crate::error::ProxmoxAPIError;
use crate::deserializers::{non_empty_str_field};
use crate::json::{FromJson, JsonModel, WireName, member_of, nonempty_text_of, str_equal, text_field, text_of, text_view};

verus! {

/// How a container's console is reached.
#[derive(Debug, Clone, Copy, PartialEq, Eq, Structural)]
pub enum ConsoleMode {
    Shell,
    Console,
    TTY,
}

impl WireName for ConsoleMode {
    open spec fn spec_from_wire(s: Seq<char>) -> Option<ConsoleMode> {
        if s == "shell"@ {
            Some(ConsoleMode::Shell)
        } else if s == "console"@ {
            Some(ConsoleMode::Console)
        } else if s == "tty"@ {
            Some(ConsoleMode::TTY)
        } else {
            None
        }
    }

    fn from_wire(s: &str) -> (r: Option<ConsoleMode>) {
        if str_equal(s, "shell") {
            Some(ConsoleMode::Shell)
        } else if str_equal(s, "console") {
            Some(ConsoleMode::Console)
        } else if str_equal(s, "tty") {
            Some(ConsoleMode::TTY)
        } else {
            None
        }
    }
}

/// A network interface of a container and its addresses.
#[derive(Debug)]
pub struct Interface {
    pub hwaddr: String,
    pub name: String,
    pub inet: Option<String>,
    pub inet6: Option<String>,
}

impl FromJson for Interface {
    open spec fn decodes(j: JsonModel, x: Interface) -> bool {
        &&& text_of(member_of(j, "hwaddr"@)) == Some(x.hwaddr@)
        &&& text_of(member_of(j, "name"@)) == Some(x.name@)
        &&& nonempty_text_of(member_of(j, "inet"@)) == Some(text_view(x.inet))
        &&& nonempty_text_of(member_of(j, "inet6"@)) == Some(text_view(x.inet6))
    }

    fn from_json(v: &serde_json::Value) -> (r: Result<Interface, ProxmoxAPIError>) {
        let hwaddr = text_field(v, "hwaddr")?;
        let name = text_field(v, "name")?;
        let inet = non_empty_str_field(v, "inet")?;
        let inet6 = non_empty_str_field(v, "inet6")?;
        Ok(Interface { hwaddr, name, inet, inet6 })
    }
}

/// Whether a container runs.
#[derive(Debug, Clone, Copy, PartialEq, Eq, Structural)]
pub enum LXCStatus {
    Stopped,
    Running,
}

impl WireName for LXCStatus {
    open spec fn spec_from_wire(s: Seq<char>) -> Option<LXCStatus> {
        if s == "stopped"@ {
            Some(LXCStatus::Stopped)
        } else if s == "running"@ {
            Some(LXCStatus::Running)
        } else {
            None
        }
    }

    fn from_wire(s: &str) -> (r: Option<LXCStatus>) {
        if str_equal(s, "stopped") {
            Some(LXCStatus::Stopped)
        } else if str_equal(s, "running") {
            Some(LXCStatus::Running)
        } else {
            None
        }
    }
}

} // verus!
