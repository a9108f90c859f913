//! Typed access to a hypervisor management REST API: the response decoding
//! and status classification that every call goes through, and the value
//! types that flow through the endpoint signatures.

pub mod error;
pub mod json;
pub mod deserializers;
pub mod requests;
pub mod response;
pub mod model;
pub mod auth;
