//! Node-level types: the identifiers of nodes and guests, and node status.

use vstd::prelude::*;

use crate::error::ProxmoxAPIError;
use crate::json::{json_view, str_equal, string_value, FromJson, JsonModel, WireName};

verus! {

/// The name of a cluster node. Compared and hashed by its text.
#[derive(Debug, Clone, Eq, Hash)]
pub struct NodeId(pub(crate) String);

impl View for NodeId {
    type V = Seq<char>;

    closed spec fn view(&self) -> Seq<char> {
        self.0@
    }
}

impl NodeId {
    pub fn new(id: String) -> (r: NodeId)
        ensures
            r@ == id@,
    {
        NodeId(id)
    }

    /// The identifier's text, unmodified.
    pub fn as_str(&self) -> (r: &str)
        ensures
            r@ == self@,
    {
        self.0.as_str()
    }

    /// The identifier's text, unmodified, as an owned string.
    pub fn to_string(&self) -> (r: String)
        ensures
            r@ == self@,
    {
        self.0.clone()
    }

    /// The JSON form of the identifier: the bare string, not an object.
    pub fn to_json(&self) -> (r: serde_json::Value)
        ensures
            json_view(r) == JsonModel::Str(self@),
    {
        string_value(self.0.clone())
    }
}

impl PartialEq for NodeId {
    fn eq(&self, other: &NodeId) -> (r: bool)
        ensures
            r == (self@ == other@),
    {
        self.0 == other.0
    }
}

impl vstd::std_specs::cmp::PartialEqSpecImpl for NodeId {
    open spec fn obeys_eq_spec() -> bool {
        true
    }

    open spec fn eq_spec(&self, other: &NodeId) -> bool {
        self@ == other@
    }
}

impl From<&str> for NodeId {
    fn from(val: &str) -> (r: NodeId)
        ensures
            r@ == val@,
    {
        NodeId(val.to_owned())
    }
}

impl vstd::std_specs::convert::FromSpecImpl<&str> for NodeId {
    open spec fn obeys_from_spec() -> bool {
        false
    }

    open spec fn from_spec(v: &str) -> NodeId {
        arbitrary()
    }
}

impl From<String> for NodeId {
    fn from(value: String) -> (r: NodeId)
        ensures
            r@ == value@,
    {
        NodeId(value)
    }
}

impl vstd::std_specs::convert::FromSpecImpl<String> for NodeId {
    open spec fn obeys_from_spec() -> bool {
        false
    }

    open spec fn from_spec(v: String) -> NodeId {
        arbitrary()
    }
}

impl FromJson for NodeId {
    /// An identifier is written as the bare JSON string of its text.
    open spec fn decodes(j: JsonModel, x: NodeId) -> bool {
        j == JsonModel::Str(x@)
    }

    fn from_json(v: &serde_json::Value) -> (r: Result<NodeId, ProxmoxAPIError>) {
        match v.as_str() {
            Some(s) => Ok(NodeId(s.to_owned())),
            None => Err(ProxmoxAPIError::DeserializationError),
        }
    }
}

/// The identifier of a virtual machine or container. Compared and hashed by
/// its text.
#[derive(Debug, Clone, Eq, Hash)]
pub struct VMId(pub(crate) String);

impl View for VMId {
    type V = Seq<char>;

    closed spec fn view(&self) -> Seq<char> {
        self.0@
    }
}

impl VMId {
    pub fn new(id: String) -> (r: VMId)
        ensures
            r@ == id@,
    {
        VMId(id)
    }

    /// The identifier's text, unmodified.
    pub fn as_str(&self) -> (r: &str)
        ensures
            r@ == self@,
    {
        self.0.as_str()
    }

    /// The identifier's text, unmodified, as an owned string.
    pub fn to_string(&self) -> (r: String)
        ensures
            r@ == self@,
    {
        self.0.clone()
    }

    /// The JSON form of the identifier: the bare string, not an object.
    pub fn to_json(&self) -> (r: serde_json::Value)
        ensures
            json_view(r) == JsonModel::Str(self@),
    {
        string_value(self.0.clone())
    }
}

impl PartialEq for VMId {
    fn eq(&self, other: &VMId) -> (r: bool)
        ensures
            r == (self@ == other@),
    {
        self.0 == other.0
    }
}

impl vstd::std_specs::cmp::PartialEqSpecImpl for VMId {
    open spec fn obeys_eq_spec() -> bool {
        true
    }

    open spec fn eq_spec(&self, other: &VMId) -> bool {
        self@ == other@
    }
}

impl From<&str> for VMId {
    fn from(val: &str) -> (r: VMId)
        ensures
            r@ == val@,
    {
        VMId(val.to_owned())
    }
}

impl vstd::std_specs::convert::FromSpecImpl<&str> for VMId {
    open spec fn obeys_from_spec() -> bool {
        false
    }

    open spec fn from_spec(v: &str) -> VMId {
        arbitrary()
    }
}

impl From<String> for VMId {
    fn from(value: String) -> (r: VMId)
        ensures
            r@ == value@,
    {
        VMId(value)
    }
}

impl vstd::std_specs::convert::FromSpecImpl<String> for VMId {
    open spec fn obeys_from_spec() -> bool {
        false
    }

    open spec fn from_spec(v: String) -> VMId {
        arbitrary()
    }
}

impl FromJson for VMId {
    /// An identifier is written as the bare JSON string of its text.
    open spec fn decodes(j: JsonModel, x: VMId) -> bool {
        j == JsonModel::Str(x@)
    }

    fn from_json(v: &serde_json::Value) -> (r: Result<VMId, ProxmoxAPIError>) {
        match v.as_str() {
            Some(s) => Ok(VMId(s.to_owned())),
            None => Err(ProxmoxAPIError::DeserializationError),
        }
    }
}

/// The state of a node as the node index reports it.
#[derive(Debug, Clone, Copy, PartialEq, Eq, Structural)]
pub enum NodeStatus {
    Unknown,
    Online,
    Offline,
}

impl NodeStatus {
    /// The display text of the status.
    pub fn to_string(&self) -> (r: &'static str)
        ensures
            r@ == match self {
                NodeStatus::Unknown => "Unknown"@,
                NodeStatus::Online => "Online"@,
                NodeStatus::Offline => "Offline"@,
            },
    {
        match self {
            NodeStatus::Unknown => "Unknown",
            NodeStatus::Online => "Online",
            NodeStatus::Offline => "Offline",
        }
    }
}

impl WireName for NodeStatus {
    open spec fn spec_from_wire(s: Seq<char>) -> Option<NodeStatus> {
        if s == "unknown"@ {
            Some(NodeStatus::Unknown)
        } else if s == "online"@ {
            Some(NodeStatus::Online)
        } else if s == "offline"@ {
            Some(NodeStatus::Offline)
        } else {
            None
        }
    }

    fn from_wire(s: &str) -> (r: Option<NodeStatus>) {
        if str_equal(s, "unknown") {
            Some(NodeStatus::Unknown)
        } else if str_equal(s, "online") {
            Some(NodeStatus::Online)
        } else if str_equal(s, "offline") {
            Some(NodeStatus::Offline)
        } else {
            None
        }
    }
}

/// An identifier's JSON form is the bare string of its text, and that form
/// decodes back to exactly the identifiers with the same text.
pub proof fn identifier_is_transparent(id: NodeId, other: NodeId, vm: VMId, other_vm: VMId)
    ensures
        NodeId::decodes(JsonModel::Str(id@), id),
        NodeId::decodes(JsonModel::Str(id@), other) <==> other@ == id@,
        VMId::decodes(JsonModel::Str(vm@), vm),
        VMId::decodes(JsonModel::Str(vm@), other_vm) <==> other_vm@ == vm@,
{
}

} // verus!
