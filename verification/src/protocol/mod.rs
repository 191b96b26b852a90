//! The framing grammar, the checksum and the message model.

pub mod easy;
pub mod error;
pub mod fcs;
pub mod kind;
pub mod message;
pub mod responses;
pub mod text;

pub use easy::{EasyCommand, EasyCommandView};
pub use error::{ProtocolError, ProtocolFault};
pub use kind::MessageKind;
pub use message::{Message, MessageParams, MessageView, NodeId};

/// The message model under the names of a command, for callers that only
/// ever send.
pub use kind::MessageKind as CommandKind;
pub use message::{Message as Command, MessageParams as CommandParams};
