//! Streaming compression of HTTP response bodies.

pub mod body;
pub mod codec;
pub mod encoder;
