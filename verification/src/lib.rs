//! Encoding and decoding of MIDI messages.
//!
//! A message on the wire is one status byte followed by its data bytes. This
//! crate turns such a byte sequence into a typed [`Message`] and back, and
//! proves that the two directions agree.
//!
//! The codec is pure and keeps no state between calls. It does not handle
//! running status, does not split a stream into messages, and does not check
//! that data bytes stay below 128: a producer of messages answers for that.

pub mod channel;
pub mod codec;
pub mod error;
pub mod message;
pub mod status;
pub mod wire;

pub use channel::Channel;
pub use error::DecodeError;
pub use message::{Message, MessageView};
