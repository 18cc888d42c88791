//! Typed view of the command API: error codes, enumerations, message
//! envelopes and request/response data shapes.

pub mod api_errors;
pub mod data;
pub mod enums;
pub mod messages;
