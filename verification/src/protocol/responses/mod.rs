//! Typed readings of response payloads.

pub mod status;
