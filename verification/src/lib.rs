//! Bridge between a model-railway controller on a serial line and a JSON
//! peer on a network link.
//!
//! The serial side speaks length-prefixed binary frames; the network side
//! speaks JSON envelopes. This crate holds everything that decides what
//! bytes mean: the frame codec, the table of message types, and the routing
//! rules. Moving the bytes is left to the caller.

pub mod adapter;
pub mod decoder;
pub mod endian;
pub mod envelope;
pub mod frame;
pub mod json;
pub mod protocol;
pub mod registry;
pub mod render;
pub mod router;
pub mod stream;

pub use frame::SerialMessage;
