//! What a controller reports about itself in its responses, and how one
//! exchange with it is judged.

pub mod error;
pub mod exchange;

pub use error::DeviceError;
pub use exchange::{EchoVerdict, ResponseError};
