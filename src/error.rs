use vstd::prelude::*;

verus! {

/// The closed set of failures that an API call can end in.
#[derive(Debug, Clone, Copy, PartialEq, Eq, Structural)]
pub enum ProxmoxAPIError {
    /// The transport could not complete the exchange, or failed mid-transfer.
    NetworkError,
    /// The response body did not have the expected JSON shape.
    DeserializationError,
    /// The server rejected the credentials (HTTP 401).
    Unauthorized,
    /// The server answered with another non-success status, kept here.
    ApiError(u16),
}

impl ProxmoxAPIError {
    /// A short human-readable description of the failure kind.
    pub fn message(&self) -> (r: &'static str)
        ensures
            r@ == self.spec_message()@,
    {
        match self {
            ProxmoxAPIError::NetworkError => "Network Error",
            ProxmoxAPIError::DeserializationError => "Error while deserializing response JSON",
            ProxmoxAPIError::Unauthorized => "Unauthorized",
            ProxmoxAPIError::ApiError(_) => "Unknown API error",
        }
    }

    pub open spec fn spec_message(&self) -> &'static str {
        match self {
            ProxmoxAPIError::NetworkError => "Network Error",
            ProxmoxAPIError::DeserializationError => "Error while deserializing response JSON",
            ProxmoxAPIError::Unauthorized => "Unauthorized",
            ProxmoxAPIError::ApiError(_) => "Unknown API error",
        }
    }
}

} // verus!
