//! The JSON documents that the API answers with, as serde_json holds them,
//! and the field-level decoding rules that every payload type is built from.

use vstd::prelude::*;
use vstd::string::StrSliceExecFns;

use crate::error::ProxmoxAPIError;

verus! {

/// A JSON number, in the three forms that serde_json keeps apart. A
/// floating-point number is held by the bits of its `f64` (`f64::to_bits`),
/// so that two different numbers never share a model.
pub enum JsonNumber {
    PosInt(u64),
    NegInt(i64),
    Float(u64),
}

/// The mathematical content of a JSON document.
pub enum JsonModel {
    Null,
    Bool(bool),
    Number(JsonNumber),
    Str(Seq<char>),
    Array(Seq<JsonModel>),
    Object(Map<Seq<char>, JsonModel>),
}

#[verifier::external_type_specification]
#[verifier::external_body]
pub struct ExValue(serde_json::Value);

#[verifier::external_type_specification]
#[verifier::external_body]
pub struct ExJsonError(serde_json::Error);

/// What a serde_json value holds, read recursively; a float by its bits.
pub uninterp spec fn json_view(v: serde_json::Value) -> JsonModel;

/// The document that serde_json reads from a text, when it accepts the text.
pub uninterp spec fn parsed_json(text: Seq<char>) -> Option<JsonModel>;

/// Relies on serde_json::from_str into a Value: whether it accepts a text,
/// and the document it reads from it, depend on the text alone.
#[verifier::external_body]
fn parse_value(text: &str) -> (r: Result<serde_json::Value, serde_json::Error>)
    ensures
        r is Ok <==> parsed_json(text@) is Some,
        r matches Ok(v) ==> parsed_json(text@) == Some(json_view(v)),
{
    serde_json::from_str::<serde_json::Value>(text)
}

/// Relies on serde_json::Value::get with a string key: the member of that
/// name when the value is an object, nothing otherwise.
#[verifier::external_body]
pub(crate) fn member<'a>(v: &'a serde_json::Value, key: &str) -> (r: Option<&'a serde_json::Value>)
    ensures
        match r {
            Some(m) => member_of(json_view(*v), key@) == Some(json_view(*m)),
            None => member_of(json_view(*v), key@) is None,
        },
{
    v.get(key)
}

/// Relies on serde_json::Value::String: the JSON string holding the text.
#[verifier::external_body]
pub(crate) fn string_value(s: String) -> (r: serde_json::Value)
    ensures
        json_view(r) == JsonModel::Str(s@),
{
    serde_json::Value::String(s)
}

/// Relies on serde_json::Value::Bool: the JSON boolean.
#[verifier::external_body]
pub(crate) fn bool_value(b: bool) -> (r: serde_json::Value)
    ensures
        json_view(r) == JsonModel::Bool(b),
{
    serde_json::Value::Bool(b)
}

/// Relies on serde_json::Value::Null.
#[verifier::external_body]
pub(crate) fn null_value() -> (r: serde_json::Value)
    ensures
        json_view(r) == JsonModel::Null,
{
    serde_json::Value::Null
}

/// Relies on serde_json's `From<u64>` for Value: a number kept as the
/// non-negative integer it is.
#[verifier::external_body]
pub(crate) fn u64_value(n: u64) -> (r: serde_json::Value)
    ensures
        json_view(r) == JsonModel::Number(JsonNumber::PosInt(n)),
{
    serde_json::Value::from(n)
}

/// Relies on serde_json::Value::Object: the object with the members of the map.
#[verifier::external_body]
pub(crate) fn object_value(m: serde_json::Map<String, serde_json::Value>) -> (r: serde_json::Value)
    ensures
        json_view(r) == JsonModel::Object(object_view(m)),
{
    serde_json::Value::Object(m)
}

/// Relies on serde_json::Value::Array: the array of the values, in order.
#[verifier::external_body]
pub(crate) fn array_value(items: Vec<serde_json::Value>) -> (r: serde_json::Value)
    ensures
        json_view(r) == JsonModel::Array(items@.map_values(|item: serde_json::Value| json_view(item))),
{
    serde_json::Value::Array(items)
}

/// Relies on `Clone` for serde_json::Value: a deep copy.
#[verifier::external_body]
pub(crate) fn clone_value(v: &serde_json::Value) -> (r: serde_json::Value)
    ensures
        json_view(r) == json_view(*v),
{
    v.clone()
}

/// The compact JSON text that serde_json writes for a document.
pub uninterp spec fn json_text_of(j: JsonModel) -> Seq<char>;

/// Relies on serde_json's `Display` for Value: the compact JSON text of the
/// value, which depends on the value alone.
#[verifier::external_body]
pub(crate) fn json_text(v: &serde_json::Value) -> (r: String)
    ensures
        r@ == json_text_of(json_view(*v)),
{
    v.to_string()
}

#[verifier::external_type_specification]
#[verifier::external_body]
#[verifier::reject_recursive_types(K)]
#[verifier::reject_recursive_types(V)]
pub struct ExJsonMap<K, V>(serde_json::Map<K, V>);

/// The members of an empty object.
pub open spec fn no_members() -> Map<Seq<char>, JsonModel> {
    Map::empty()
}

/// The members that a serde_json object map holds.
pub uninterp spec fn object_view(m: serde_json::Map<String, serde_json::Value>) -> Map<Seq<char>, JsonModel>;

pub assume_specification[ serde_json::Map::new ]() -> (r: serde_json::Map<String, serde_json::Value>)
    ensures
        object_view(r) == no_members(),
;

pub assume_specification[ serde_json::Map::insert ](
    m: &mut serde_json::Map<String, serde_json::Value>,
    k: String,
    v: serde_json::Value,
) -> (r: Option<serde_json::Value>)
    ensures
        object_view(*final(m)) == object_view(*old(m)).insert(k@, json_view(v)),
;

pub assume_specification[ serde_json::Value::as_str ](v: &serde_json::Value) -> (r: Option<&str>)
    ensures
        match json_view(*v) {
            JsonModel::Str(s) => r is Some && r->Some_0@ == s,
            _ => r is None,
        },
;

pub assume_specification[ serde_json::Value::as_bool ](v: &serde_json::Value) -> (r: Option<bool>)
    ensures
        match json_view(*v) {
            JsonModel::Bool(b) => r == Some(b),
            _ => r is None,
        },
;

pub assume_specification[ serde_json::Value::is_null ](v: &serde_json::Value) -> (r: bool)
    ensures
        r == (json_view(*v) is Null),
;

pub assume_specification[ serde_json::Value::as_i64 ](v: &serde_json::Value) -> (r: Option<i64>)
    ensures
        match json_view(*v) {
            JsonModel::Number(JsonNumber::PosInt(n)) => if n <= i64::MAX as u64 {
                r == Some(n as i64)
            } else {
                r is None
            },
            JsonModel::Number(JsonNumber::NegInt(n)) => r == Some(n),
            _ => r is None,
        },
;

pub assume_specification[ serde_json::Value::as_u64 ](v: &serde_json::Value) -> (r: Option<u64>)
    ensures
        match json_view(*v) {
            JsonModel::Number(JsonNumber::PosInt(n)) => r == Some(n),
            _ => r is None,
        },
;

pub assume_specification[ serde_json::Value::as_array ](v: &serde_json::Value) -> (r: Option<&Vec<serde_json::Value>>)
    ensures
        match json_view(*v) {
            JsonModel::Array(items) => r is Some && r->Some_0@.len() == items.len() && (forall|i: int|
                0 <= i < items.len() ==> json_view(#[trigger] r->Some_0@[i]) == items[i]),
            _ => r is None,
        },
;

/// The member of an object under a key; nothing for a missing key or a
/// value that is not an object.
pub open spec fn member_of(j: JsonModel, key: Seq<char>) -> Option<JsonModel> {
    match j {
        JsonModel::Object(m) => if m.contains_key(key) {
            Some(m[key])
        } else {
            None
        },
        _ => None,
    }
}

/// The content of an optional field as looked up in its object.
pub open spec fn field_view(f: Option<&serde_json::Value>) -> Option<JsonModel> {
    match f {
        Some(v) => Some(json_view(*v)),
        None => None,
    }
}

/// A required text field: present and a JSON string.
pub open spec fn text_of(f: Option<JsonModel>) -> Option<Seq<char>> {
    match f {
        Some(JsonModel::Str(s)) => Some(s),
        _ => None,
    }
}

/// An optional text field: absent or `null` decode to no value, a string to
/// that string, anything else fails (the outer `None`).
pub open spec fn opt_text_of(f: Option<JsonModel>) -> Option<Option<Seq<char>>> {
    match f {
        None => Some(None),
        Some(JsonModel::Null) => Some(None),
        Some(JsonModel::Str(s)) => Some(Some(s)),
        _ => None,
    }
}

/// An optional text field in which the empty string also means "no value".
pub open spec fn nonempty_text_of(f: Option<JsonModel>) -> Option<Option<Seq<char>>> {
    match opt_text_of(f) {
        Some(Some(s)) => if s.len() == 0 {
            Some(None)
        } else {
            Some(Some(s))
        },
        other => other,
    }
}

/// A required boolean field.
pub open spec fn bool_of(f: Option<JsonModel>) -> Option<bool> {
    match f {
        Some(JsonModel::Bool(b)) => Some(b),
        _ => None,
    }
}

/// A boolean field that defaults to `false` when missing.
pub open spec fn bool_or_false_of(f: Option<JsonModel>) -> Option<bool> {
    match f {
        None => Some(false),
        Some(JsonModel::Bool(b)) => Some(b),
        _ => None,
    }
}

/// An optional boolean field.
pub open spec fn opt_bool_of(f: Option<JsonModel>) -> Option<Option<bool>> {
    match f {
        None => Some(None),
        Some(JsonModel::Null) => Some(None),
        Some(JsonModel::Bool(b)) => Some(Some(b)),
        _ => None,
    }
}

/// A required integer field of a signed type ranging over `lo..=hi`.
pub open spec fn signed_of(f: Option<JsonModel>, lo: int, hi: int) -> Option<int> {
    match f {
        Some(JsonModel::Number(JsonNumber::PosInt(n))) => if lo <= n <= hi {
            Some(n as int)
        } else {
            None
        },
        Some(JsonModel::Number(JsonNumber::NegInt(n))) => if lo <= n <= hi {
            Some(n as int)
        } else {
            None
        },
        _ => None,
    }
}

/// An optional integer field of a signed type ranging over `lo..=hi`.
pub open spec fn opt_signed_of(f: Option<JsonModel>, lo: int, hi: int) -> Option<Option<int>> {
    match f {
        None => Some(None),
        Some(JsonModel::Null) => Some(None),
        _ => match signed_of(f, lo, hi) {
            Some(n) => Some(Some(n)),
            None => None,
        },
    }
}

/// A required integer field of an unsigned type ranging over `0..=hi`.
pub open spec fn unsigned_of(f: Option<JsonModel>, hi: int) -> Option<int> {
    match f {
        Some(JsonModel::Number(JsonNumber::PosInt(n))) => if n <= hi {
            Some(n as int)
        } else {
            None
        },
        _ => None,
    }
}

/// An optional integer field of an unsigned type ranging over `0..=hi`.
pub open spec fn opt_unsigned_of(f: Option<JsonModel>, hi: int) -> Option<Option<int>> {
    match f {
        None => Some(None),
        Some(JsonModel::Null) => Some(None),
        _ => match unsigned_of(f, hi) {
            Some(n) => Some(Some(n)),
            None => None,
        },
    }
}

/// An optional list-of-texts field: absent or `null` decode to no value, an
/// array of strings to those strings in order, anything else fails.
pub open spec fn opt_text_list_of(f: Option<JsonModel>) -> Option<Option<Seq<Seq<char>>>> {
    match f {
        None => Some(None),
        Some(JsonModel::Null) => Some(None),
        Some(JsonModel::Array(items)) => if forall|i: int| 0 <= i < items.len() ==> (#[trigger] items[i]) is Str {
            Some(Some(items.map_values(|item: JsonModel| item->Str_0)))
        } else {
            None
        },
        _ => None,
    }
}

/// The member under `key` of the document that `v` holds.
pub open spec fn at(v: &serde_json::Value, key: Seq<char>) -> Option<JsonModel> {
    member_of(json_view(*v), key)
}

pub open spec fn int_of_i64(o: Option<i64>) -> Option<int> {
    match o {
        Some(n) => Some(n as int),
        None => None,
    }
}

pub open spec fn int_of_i32(o: Option<i32>) -> Option<int> {
    match o {
        Some(n) => Some(n as int),
        None => None,
    }
}

pub open spec fn int_of_i16(o: Option<i16>) -> Option<int> {
    match o {
        Some(n) => Some(n as int),
        None => None,
    }
}

pub open spec fn int_of_u64(o: Option<u64>) -> Option<int> {
    match o {
        Some(n) => Some(n as int),
        None => None,
    }
}

pub open spec fn int_of_u16(o: Option<u16>) -> Option<int> {
    match o {
        Some(n) => Some(n as int),
        None => None,
    }
}

pub open spec fn texts_of(o: Option<Vec<String>>) -> Option<Seq<Seq<char>>> {
    match o {
        Some(v) => Some(v@.map_values(|s: String| s@)),
        None => None,
    }
}

pub open spec fn text_view(o: Option<String>) -> Option<Seq<char>> {
    match o {
        Some(s) => Some(s@),
        None => None,
    }
}

/// A type that is written on the wire as one of a fixed set of names.
pub trait WireName: Sized {
    spec fn spec_from_wire(s: Seq<char>) -> Option<Self>;

    fn from_wire(s: &str) -> (r: Option<Self>)
        ensures
            r == Self::spec_from_wire(s@),
    ;
}

/// A required field holding one of the names of `T`.
pub open spec fn named_of<T: WireName>(f: Option<JsonModel>) -> Option<T> {
    match f {
        Some(JsonModel::Str(s)) => T::spec_from_wire(s),
        _ => None,
    }
}

/// An optional field holding one of the names of `T`.
pub open spec fn opt_named_of<T: WireName>(f: Option<JsonModel>) -> Option<Option<T>> {
    match f {
        None => Some(None),
        Some(JsonModel::Null) => Some(None),
        _ => match named_of::<T>(f) {
            Some(x) => Some(Some(x)),
            None => None,
        },
    }
}

/// `r` is the outcome of decoding `j` into a `T`: the value that `j` decodes
/// to, or the decoding error when it decodes to nothing.
pub open spec fn decoded_as<T: FromJson>(j: JsonModel, r: Result<T, ProxmoxAPIError>) -> bool {
    match r {
        Ok(x) => T::decodes(j, x),
        Err(e) => e == ProxmoxAPIError::DeserializationError && forall|x: T| !(#[trigger] T::decodes(j, x)),
    }
}

/// A decode attempt ends either in a value that the whole document decodes
/// to, or in the decoding error alone: never in part of a value.
pub proof fn decoding_is_all_or_nothing<T: FromJson>(j: JsonModel, r: Result<T, ProxmoxAPIError>)
    requires
        decoded_as(j, r),
    ensures
        r is Ok <==> exists|x: T| #[trigger] T::decodes(j, x),
        r is Ok ==> T::decodes(j, r->Ok_0),
        r is Err ==> r == Err::<T, ProxmoxAPIError>(ProxmoxAPIError::DeserializationError),
{
    if r is Ok {
        assert(T::decodes(j, r->Ok_0));
    }
}

/// A type that a JSON document decodes into, field by field.
pub trait FromJson: Sized {
    /// `x` is what the document `j` decodes to.
    spec fn decodes(j: JsonModel, x: Self) -> bool;

    /// Decodes the document; it fails, with a decoding error, exactly when
    /// the document decodes to nothing.
    fn from_json(v: &serde_json::Value) -> (r: Result<Self, ProxmoxAPIError>)
        ensures
            match r {
                Ok(x) => Self::decodes(json_view(*v), x),
                Err(e) => e == ProxmoxAPIError::DeserializationError && forall|x: Self|
                    !(#[trigger] Self::decodes(json_view(*v), x)),
            },
    ;
}

impl<T: FromJson> FromJson for Vec<T> {
    /// An array decodes element by element, in order.
    open spec fn decodes(j: JsonModel, x: Vec<T>) -> bool {
        match j {
            JsonModel::Array(items) => x@.len() == items.len() && forall|i: int|
                0 <= i < items.len() ==> T::decodes(items[i], #[trigger] x@[i]),
            _ => false,
        }
    }

    fn from_json(v: &serde_json::Value) -> (r: Result<Vec<T>, ProxmoxAPIError>) {
        match v.as_array() {
            None => Err(ProxmoxAPIError::DeserializationError),
            Some(items) => {
                let ghost model = json_view(*v)->Array_0;
                let mut out: Vec<T> = Vec::new();
                let mut i: usize = 0;
                while i < items.len()
                    invariant
                        json_view(*v) == JsonModel::Array(model),
                        items@.len() == model.len(),
                        forall|k: int| 0 <= k < model.len() ==> json_view(#[trigger] items@[k]) == model[k],
                        i <= items.len(),
                        out@.len() == i,
                        forall|k: int| 0 <= k < i ==> T::decodes(model[k], #[trigger] out@[k]),
                    decreases items.len() - i,
                {
                    match T::from_json(&items[i]) {
                        Ok(x) => {
                            out.push(x);
                        },
                        Err(e) => {
                            assert forall|x: Vec<T>| !(#[trigger] Self::decodes(json_view(*v), x)) by {
                                if Self::decodes(json_view(*v), x) {
                                    assert(T::decodes(model[i as int], x@[i as int]));
                                }
                            }
                            return Err(e);
                        },
                    }
                    i = i + 1;
                }
                Ok(out)
            },
        }
    }
}

impl FromJson for String {
    /// A text payload is a JSON string.
    open spec fn decodes(j: JsonModel, x: String) -> bool {
        j == JsonModel::Str(x@)
    }

    fn from_json(v: &serde_json::Value) -> (r: Result<String, ProxmoxAPIError>) {
        match v.as_str() {
            Some(s) => Ok(s.to_owned()),
            None => Err(ProxmoxAPIError::DeserializationError),
        }
    }
}

impl FromJson for i32 {
    /// An integer payload is a JSON integer within the range of `i32`.
    open spec fn decodes(j: JsonModel, x: i32) -> bool {
        signed_of(Some(j), i32::MIN as int, i32::MAX as int) == Some(x as int)
    }

    fn from_json(v: &serde_json::Value) -> (r: Result<i32, ProxmoxAPIError>) {
        let n = signed_value(v, i32::MIN as i64, i32::MAX as i64)?;
        Ok(n as i32)
    }
}

impl FromJson for serde_json::Value {
    /// A payload taken as it is: any document decodes to itself.
    open spec fn decodes(j: JsonModel, x: serde_json::Value) -> bool {
        json_view(x) == j
    }

    fn from_json(v: &serde_json::Value) -> (r: Result<serde_json::Value, ProxmoxAPIError>) {
        Ok(clone_value(v))
    }
}

/// Reads a JSON text into a document; a text that is not JSON is a decoding
/// failure.
pub fn parse_document(text: &str) -> (r: Result<serde_json::Value, ProxmoxAPIError>)
    ensures
        match r {
            Ok(v) => parsed_json(text@) == Some(json_view(v)),
            Err(e) => e == ProxmoxAPIError::DeserializationError && parsed_json(text@) is None,
        },
{
    match parse_value(text) {
        Ok(v) => Ok(v),
        Err(_) => Err(ProxmoxAPIError::DeserializationError),
    }
}

/// Decodes a required text field.
pub fn text_field(v: &serde_json::Value, key: &str) -> (r: Result<String, ProxmoxAPIError>)
    ensures
        match r {
            Ok(s) => text_of(at(v, key@)) == Some(s@),
            Err(e) => e == ProxmoxAPIError::DeserializationError && text_of(at(v, key@)) is None,
        },
{
    match member(v, key) {
        Some(m) => match m.as_str() {
            Some(s) => Ok(s.to_owned()),
            None => Err(ProxmoxAPIError::DeserializationError),
        },
        None => Err(ProxmoxAPIError::DeserializationError),
    }
}

/// Decodes an optional text field from its looked-up value.
pub fn opt_text(f: Option<&serde_json::Value>) -> (r: Result<Option<String>, ProxmoxAPIError>)
    ensures
        match r {
            Ok(o) => opt_text_of(field_view(f)) == Some(text_view(o)),
            Err(e) => e == ProxmoxAPIError::DeserializationError && opt_text_of(field_view(f)) is None,
        },
{
    match f {
        None => Ok(None),
        Some(m) => if m.is_null() {
            Ok(None)
        } else {
            match m.as_str() {
                Some(s) => Ok(Some(s.to_owned())),
                None => Err(ProxmoxAPIError::DeserializationError),
            }
        },
    }
}

/// Decodes an optional text field.
pub fn opt_text_field(v: &serde_json::Value, key: &str) -> (r: Result<Option<String>, ProxmoxAPIError>)
    ensures
        match r {
            Ok(o) => opt_text_of(at(v, key@)) == Some(text_view(o)),
            Err(e) => e == ProxmoxAPIError::DeserializationError && opt_text_of(at(v, key@)) is None,
        },
{
    opt_text(member(v, key))
}

/// Decodes a required boolean field.
pub fn bool_field(v: &serde_json::Value, key: &str) -> (r: Result<bool, ProxmoxAPIError>)
    ensures
        match r {
            Ok(b) => bool_of(at(v, key@)) == Some(b),
            Err(e) => e == ProxmoxAPIError::DeserializationError && bool_of(at(v, key@)) is None,
        },
{
    match member(v, key) {
        Some(m) => match m.as_bool() {
            Some(b) => Ok(b),
            None => Err(ProxmoxAPIError::DeserializationError),
        },
        None => Err(ProxmoxAPIError::DeserializationError),
    }
}

/// Decodes a boolean field that defaults to `false` when missing.
pub fn bool_or_false_field(v: &serde_json::Value, key: &str) -> (r: Result<bool, ProxmoxAPIError>)
    ensures
        match r {
            Ok(b) => bool_or_false_of(at(v, key@)) == Some(b),
            Err(e) => e == ProxmoxAPIError::DeserializationError && bool_or_false_of(at(v, key@)) is None,
        },
{
    match member(v, key) {
        None => Ok(false),
        Some(m) => match m.as_bool() {
            Some(b) => Ok(b),
            None => Err(ProxmoxAPIError::DeserializationError),
        },
    }
}

/// Decodes an optional boolean field.
pub fn opt_bool_field(v: &serde_json::Value, key: &str) -> (r: Result<Option<bool>, ProxmoxAPIError>)
    ensures
        match r {
            Ok(o) => opt_bool_of(at(v, key@)) == Some(o),
            Err(e) => e == ProxmoxAPIError::DeserializationError && opt_bool_of(at(v, key@)) is None,
        },
{
    match member(v, key) {
        None => Ok(None),
        Some(m) => if m.is_null() {
            Ok(None)
        } else {
            match m.as_bool() {
                Some(b) => Ok(Some(b)),
                None => Err(ProxmoxAPIError::DeserializationError),
            }
        },
    }
}

/// Decodes a signed integer from a value, within `lo..=hi`.
fn signed_value(m: &serde_json::Value, lo: i64, hi: i64) -> (r: Result<i64, ProxmoxAPIError>)
    ensures
        match r {
            Ok(n) => signed_of(Some(json_view(*m)), lo as int, hi as int) == Some(n as int),
            Err(e) => e == ProxmoxAPIError::DeserializationError && signed_of(
                Some(json_view(*m)),
                lo as int,
                hi as int,
            ) is None,
        },
{
    match m.as_i64() {
        Some(n) => if lo <= n && n <= hi {
            Ok(n)
        } else {
            Err(ProxmoxAPIError::DeserializationError)
        },
        None => Err(ProxmoxAPIError::DeserializationError),
    }
}

/// Decodes a required signed integer field, within `lo..=hi`.
pub fn signed_field(v: &serde_json::Value, key: &str, lo: i64, hi: i64) -> (r: Result<i64, ProxmoxAPIError>)
    ensures
        match r {
            Ok(n) => signed_of(at(v, key@), lo as int, hi as int) == Some(n as int),
            Err(e) => e == ProxmoxAPIError::DeserializationError && signed_of(at(v, key@), lo as int, hi as int) is None,
        },
{
    match member(v, key) {
        Some(m) => signed_value(m, lo, hi),
        None => Err(ProxmoxAPIError::DeserializationError),
    }
}

/// Decodes an optional signed integer field, within `lo..=hi`.
pub fn opt_signed_field(v: &serde_json::Value, key: &str, lo: i64, hi: i64) -> (r: Result<Option<i64>, ProxmoxAPIError>)
    ensures
        match r {
            Ok(o) => opt_signed_of(at(v, key@), lo as int, hi as int) == Some(int_of_i64(o)),
            Err(e) => e == ProxmoxAPIError::DeserializationError && opt_signed_of(at(v, key@), lo as int, hi as int) is None,
        },
{
    match member(v, key) {
        None => Ok(None),
        Some(m) => if m.is_null() {
            Ok(None)
        } else {
            match signed_value(m, lo, hi) {
                Ok(n) => Ok(Some(n)),
                Err(e) => Err(e),
            }
        },
    }
}

/// Decodes an unsigned integer from a value, within `0..=hi`.
fn unsigned_value(m: &serde_json::Value, hi: u64) -> (r: Result<u64, ProxmoxAPIError>)
    ensures
        match r {
            Ok(n) => unsigned_of(Some(json_view(*m)), hi as int) == Some(n as int),
            Err(e) => e == ProxmoxAPIError::DeserializationError && unsigned_of(Some(json_view(*m)), hi as int) is None,
        },
{
    match m.as_u64() {
        Some(n) => if n <= hi {
            Ok(n)
        } else {
            Err(ProxmoxAPIError::DeserializationError)
        },
        None => Err(ProxmoxAPIError::DeserializationError),
    }
}

/// Decodes a required unsigned integer field, within `0..=hi`.
pub fn unsigned_field(v: &serde_json::Value, key: &str, hi: u64) -> (r: Result<u64, ProxmoxAPIError>)
    ensures
        match r {
            Ok(n) => unsigned_of(at(v, key@), hi as int) == Some(n as int),
            Err(e) => e == ProxmoxAPIError::DeserializationError && unsigned_of(at(v, key@), hi as int) is None,
        },
{
    match member(v, key) {
        Some(m) => unsigned_value(m, hi),
        None => Err(ProxmoxAPIError::DeserializationError),
    }
}

/// Decodes an optional unsigned integer field, within `0..=hi`.
pub fn opt_unsigned_field(v: &serde_json::Value, key: &str, hi: u64) -> (r: Result<Option<u64>, ProxmoxAPIError>)
    ensures
        match r {
            Ok(o) => opt_unsigned_of(at(v, key@), hi as int) == Some(int_of_u64(o)),
            Err(e) => e == ProxmoxAPIError::DeserializationError && opt_unsigned_of(at(v, key@), hi as int) is None,
        },
{
    match member(v, key) {
        None => Ok(None),
        Some(m) => if m.is_null() {
            Ok(None)
        } else {
            match unsigned_value(m, hi) {
                Ok(n) => Ok(Some(n)),
                Err(e) => Err(e),
            }
        },
    }
}

/// Decodes an optional list-of-texts field.
pub fn opt_text_list_field(v: &serde_json::Value, key: &str) -> (r: Result<Option<Vec<String>>, ProxmoxAPIError>)
    ensures
        match r {
            Ok(o) => opt_text_list_of(at(v, key@)) == Some(texts_of(o)),
            Err(e) => e == ProxmoxAPIError::DeserializationError && opt_text_list_of(at(v, key@)) is None,
        },
{
    match member(v, key) {
        None => Ok(None),
        Some(m) => if m.is_null() {
            Ok(None)
        } else {
            match m.as_array() {
                None => Err(ProxmoxAPIError::DeserializationError),
                Some(items) => {
                    let ghost model = json_view(*m)->Array_0;
                    let mut out: Vec<String> = Vec::new();
                    let mut i: usize = 0;
                    while i < items.len()
                        invariant
                            at(v, key@) == Some(JsonModel::Array(model)),
                            items@.len() == model.len(),
                            forall|k: int| 0 <= k < model.len() ==> json_view(#[trigger] items@[k]) == model[k],
                            i <= items.len(),
                            out@.len() == i,
                            forall|k: int| 0 <= k < i ==> (#[trigger] model[k]) is Str && model[k]->Str_0 == out@[k]@,
                        decreases items.len() - i,
                    {
                        match items[i].as_str() {
                            Some(s) => {
                                out.push(s.to_owned());
                            },
                            None => {
                                assert(!(model[i as int] is Str));
                                assert(!(forall|k: int| 0 <= k < model.len() ==> (#[trigger] model[k]) is Str));
                                return Err(ProxmoxAPIError::DeserializationError);
                            },
                        }
                        i = i + 1;
                    }
                    assert(out@.map_values(|s: String| s@) =~= model.map_values(|item: JsonModel| item->Str_0));
                    Ok(Some(out))
                },
            }
        },
    }
}

/// Decodes a required field holding one of the names of `T`.
pub fn named_field<T: WireName>(v: &serde_json::Value, key: &str) -> (r: Result<T, ProxmoxAPIError>)
    ensures
        match r {
            Ok(x) => named_of::<T>(at(v, key@)) == Some(x),
            Err(e) => e == ProxmoxAPIError::DeserializationError && named_of::<T>(at(v, key@)) is None,
        },
{
    match member(v, key) {
        Some(m) => match m.as_str() {
            Some(s) => match T::from_wire(s) {
                Some(x) => Ok(x),
                None => Err(ProxmoxAPIError::DeserializationError),
            },
            None => Err(ProxmoxAPIError::DeserializationError),
        },
        None => Err(ProxmoxAPIError::DeserializationError),
    }
}

/// Decodes an optional field holding one of the names of `T`.
pub fn opt_named_field<T: WireName>(v: &serde_json::Value, key: &str) -> (r: Result<Option<T>, ProxmoxAPIError>)
    ensures
        match r {
            Ok(o) => opt_named_of::<T>(at(v, key@)) == Some(o),
            Err(e) => e == ProxmoxAPIError::DeserializationError && opt_named_of::<T>(at(v, key@)) is None,
        },
{
    match member(v, key) {
        None => Ok(None),
        Some(m) => if m.is_null() {
            Ok(None)
        } else {
            match m.as_str() {
                Some(s) => match T::from_wire(s) {
                    Some(x) => Ok(Some(x)),
                    None => Err(ProxmoxAPIError::DeserializationError),
                },
                None => Err(ProxmoxAPIError::DeserializationError),
            }
        },
    }
}

/// Whether two texts hold the same characters.
pub fn str_equal(a: &str, b: &str) -> (r: bool)
    ensures
        r == (a@ == b@),
{
    let n = a.unicode_len();
    if n != b.unicode_len() {
        return false;
    }
    let mut i: usize = 0;
    while i < n
        invariant
            n == a@.len(),
            n == b@.len(),
            i <= n,
            forall|k: int| 0 <= k < i ==> a@[k] == b@[k],
        decreases n - i,
    {
        if a.get_char(i) != b.get_char(i) {
            return false;
        }
        i = i + 1;
    }
    assert(a@ =~= b@);
    true
}

} // verus!
