//! Error taxonomy for a netlink-style binary protocol codec.
//!
//! Two error types cover the two directions of the codec: [`errors::DecodeError`]
//! is a structured taxonomy for failures while parsing untrusted bytes, and
//! [`errors::EncodeError`] is a single opaque carrier for serialization
//! failures. Every variant renders a deterministic, human-readable message;
//! the rendering is specified exactly, down to each character.

pub mod errors;
pub mod laws;
pub mod render;
