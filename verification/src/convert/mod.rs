//! Conversions at the border to the framework.

pub mod from_request;
