//! Conversions between the forms in which requests, responses and stored
//! items travel.

pub mod from_rest_request;
pub mod json;
pub mod reader;
pub mod to_rest_response;
pub mod writer;
