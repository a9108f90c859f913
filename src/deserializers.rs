//! Field decoders for the API's habit of writing "no value" as an empty
//! string: such a field decodes to an absent optional, whatever its target.

use vstd::prelude::*;

use crate::error::ProxmoxAPIError;
use crate::json::{at, field_view, member, nonempty_text_of, opt_text, text_view, JsonModel};
use crate::model::node::{NodeId, VMId};

verus! {

pub open spec fn node_id_view(o: Option<NodeId>) -> Option<Seq<char>> {
    match o {
        Some(id) => Some(id@),
        None => None,
    }
}

pub open spec fn vm_id_view(o: Option<VMId>) -> Option<Seq<char>> {
    match o {
        Some(id) => Some(id@),
        None => None,
    }
}

/// Decodes an optional text field (`f` is the field as looked up, `None` when
/// it is missing): missing, `null` and `""` give no value, another string
/// gives that string, any other JSON value is a decoding error.
pub fn non_empty_str(f: Option<&serde_json::Value>) -> (r: Result<Option<String>, ProxmoxAPIError>)
    ensures
        match r {
            Ok(o) => nonempty_text_of(field_view(f)) == Some(text_view(o)),
            Err(e) => e == ProxmoxAPIError::DeserializationError && nonempty_text_of(field_view(f)) is None,
        },
{
    match opt_text(f) {
        Ok(Some(s)) => if s.as_str().is_empty() {
            Ok(None)
        } else {
            Ok(Some(s))
        },
        other => other,
    }
}

/// As `non_empty_str`, with the text wrapped as a guest identifier.
pub fn non_empty_vmid(f: Option<&serde_json::Value>) -> (r: Result<Option<VMId>, ProxmoxAPIError>)
    ensures
        match r {
            Ok(o) => nonempty_text_of(field_view(f)) == Some(vm_id_view(o)),
            Err(e) => e == ProxmoxAPIError::DeserializationError && nonempty_text_of(field_view(f)) is None,
        },
{
    match non_empty_str(f) {
        Ok(Some(s)) => Ok(Some(VMId::new(s))),
        Ok(None) => Ok(None),
        Err(e) => Err(e),
    }
}

/// As `non_empty_str`, with the text wrapped as a node identifier.
pub fn non_empty_nodeid(f: Option<&serde_json::Value>) -> (r: Result<Option<NodeId>, ProxmoxAPIError>)
    ensures
        match r {
            Ok(o) => nonempty_text_of(field_view(f)) == Some(node_id_view(o)),
            Err(e) => e == ProxmoxAPIError::DeserializationError && nonempty_text_of(field_view(f)) is None,
        },
{
    match non_empty_str(f) {
        Ok(Some(s)) => Ok(Some(NodeId::new(s))),
        Ok(None) => Ok(None),
        Err(e) => Err(e),
    }
}

/// Decodes the field under `key` of an object by the empty-string rule.
pub fn non_empty_str_field(v: &serde_json::Value, key: &str) -> (r: Result<Option<String>, ProxmoxAPIError>)
    ensures
        match r {
            Ok(o) => nonempty_text_of(at(v, key@)) == Some(text_view(o)),
            Err(e) => e == ProxmoxAPIError::DeserializationError && nonempty_text_of(at(v, key@)) is None,
        },
{
    non_empty_str(member(v, key))
}

/// Decodes the field under `key` by the empty-string rule, where the field
/// itself must be present (a field with this rule and no default).
pub fn non_empty_str_present(v: &serde_json::Value, key: &str) -> (r: Result<Option<String>, ProxmoxAPIError>)
    ensures
        match r {
            Ok(o) => at(v, key@) is Some && nonempty_text_of(at(v, key@)) == Some(text_view(o)),
            Err(e) => e == ProxmoxAPIError::DeserializationError && !(at(v, key@) is Some && nonempty_text_of(
                at(v, key@),
            ) is Some),
        },
{
    match member(v, key) {
        None => Err(ProxmoxAPIError::DeserializationError),
        Some(m) => non_empty_str(Some(m)),
    }
}

/// The empty-string rule: a missing field, `null` and `""` all decode to no
/// value, and any other string `s` decodes to `s` itself.
pub proof fn empty_string_is_absent(s: Seq<char>)
    ensures
        nonempty_text_of(None) == Some(None::<Seq<char>>),
        nonempty_text_of(Some(JsonModel::Null)) == Some(None::<Seq<char>>),
        nonempty_text_of(Some(JsonModel::Str(Seq::empty()))) == Some(None::<Seq<char>>),
        s.len() > 0 ==> nonempty_text_of(Some(JsonModel::Str(s))) == Some(Some(s)),
{
}

} // verus!
