//! Typed messages carried in the frames of the control transport.
//!
//! A message is an eight-byte envelope followed by MsgPack values. Every
//! message names the session it belongs to.

pub mod codec;
pub mod codec_laws;
pub mod envelope;
pub mod error;
pub mod error_text;
pub mod framing_laws;
pub mod message;
pub mod msgpack;
pub mod scan;
pub mod session;
pub mod set_laws;
pub mod set_reading;
pub mod sets;
pub mod validation;
pub mod wire_laws;
