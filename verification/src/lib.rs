//! Client-side codec for an ASCII, checksum-framed request/response serial
//! protocol spoken by programmable logic controllers.

pub mod device;
pub mod protocol;
