//! The decoding pipeline that every API call goes through: the response
//! status is classified first, then the body is read as JSON and the payload
//! taken out of its `{"data": ...}` envelope.

use vstd::prelude::*;

use crate::error::ProxmoxAPIError;
use crate::json::{decoded_as, json_view, member, member_of, parse_document, parsed_json, FromJson, JsonModel};

verus! {

/// Whether an HTTP status reports success (the 2xx range).
pub open spec fn spec_is_success(status: u16) -> bool {
    200 <= status < 300
}

/// The error that a non-success status is classified as.
pub open spec fn status_error(status: u16) -> ProxmoxAPIError {
    if status == 401 {
        ProxmoxAPIError::Unauthorized
    } else {
        ProxmoxAPIError::ApiError(status)
    }
}

/// Whether an HTTP status reports success (the 2xx range).
pub fn is_success(status: u16) -> (r: bool)
    ensures
        r == spec_is_success(status),
{
    200 <= status && status < 300
}

/// Classifies a response status: success passes; 401 is `Unauthorized`; any
/// other status is `ApiError` carrying that status.
pub fn classify_status(status: u16) -> (r: Result<(), ProxmoxAPIError>)
    ensures
        spec_is_success(status) ==> r is Ok,
        !spec_is_success(status) ==> r == Err::<(), ProxmoxAPIError>(status_error(status)),
{
    if is_success(status) {
        Ok(())
    } else if status == 401 {
        Err(ProxmoxAPIError::Unauthorized)
    } else {
        Err(ProxmoxAPIError::ApiError(status))
    }
}

/// How the statuses are classified: 401 is never reported as a generic API
/// error, and every other failing status is kept as it came.
pub proof fn status_classification(status: u16)
    ensures
        !spec_is_success(401) && status_error(401) == ProxmoxAPIError::Unauthorized,
        !spec_is_success(status) && status != 401 ==> status_error(status) == ProxmoxAPIError::ApiError(status),
        status_error(status) != ProxmoxAPIError::NetworkError,
        status_error(status) != ProxmoxAPIError::DeserializationError,
{
}

/// The document that a response stands for: `Ok(j)` for a success status and
/// a body that is the JSON text of `j`, else the error it is classified as.
/// A `body` of `None` means that the transport failed while reading it.
pub open spec fn response_document(status: u16, body: Option<Seq<char>>) -> Result<JsonModel, ProxmoxAPIError> {
    if !spec_is_success(status) {
        Err(status_error(status))
    } else {
        match body {
            None => Err(ProxmoxAPIError::NetworkError),
            Some(text) => match parsed_json(text) {
                Some(j) => Ok(j),
                None => Err(ProxmoxAPIError::DeserializationError),
            },
        }
    }
}

pub open spec fn body_view(body: Option<String>) -> Option<Seq<char>> {
    match body {
        Some(b) => Some(b@),
        None => None,
    }
}

/// Classifies the status, then reads the body as one JSON document.
pub fn read_document(status: u16, body: Option<String>) -> (r: Result<serde_json::Value, ProxmoxAPIError>)
    ensures
        match response_document(status, body_view(body)) {
            Ok(j) => r is Ok && json_view(r->Ok_0) == j,
            Err(e) => r == Err::<serde_json::Value, ProxmoxAPIError>(e),
        },
{
    match classify_status(status) {
        Err(e) => Err(e),
        Ok(()) => match body {
            None => Err(ProxmoxAPIError::NetworkError),
            Some(text) => parse_document(text.as_str()),
        },
    }
}

/// The `{"data": ...}` envelope that every successful payload comes in.
pub struct PveResponse<T> {
    pub data: T,
}

impl<T: FromJson> FromJson for PveResponse<T> {
    /// An envelope is an object whose `data` member decodes to the payload;
    /// other members are ignored.
    open spec fn decodes(j: JsonModel, x: PveResponse<T>) -> bool {
        member_of(j, "data"@) is Some && T::decodes(member_of(j, "data"@)->Some_0, x.data)
    }

    fn from_json(v: &serde_json::Value) -> (r: Result<PveResponse<T>, ProxmoxAPIError>) {
        match member(v, "data") {
            None => Err(ProxmoxAPIError::DeserializationError),
            Some(d) => match T::from_json(d) {
                Ok(data) => Ok(PveResponse { data }),
                Err(e) => Err(e),
            },
        }
    }
}

impl<T: FromJson> PveResponse<T> {
    /// Turns a response into its payload: a failing status is classified
    /// without looking at the body; a success status needs a body that was
    /// read whole, that is JSON, and whose envelope decodes.
    pub fn from_response(status: u16, body: Option<String>) -> (r: Result<PveResponse<T>, ProxmoxAPIError>)
        ensures
            match response_document(status, body_view(body)) {
                Ok(j) => decoded_as(j, r),
                Err(e) => r == Err::<PveResponse<T>, ProxmoxAPIError>(e),
            },
    {
        match read_document(status, body) {
            Ok(doc) => PveResponse::<T>::from_json(&doc),
            Err(e) => Err(e),
        }
    }
}

} // verus!
