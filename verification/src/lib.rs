//! Core of a minimal request/response protocol over a secure, stream-multiplexed
//! transport: the message codec, the bounded body reader, the server-side
//! stream and connection lifecycle, the client session lifecycle, and the
//! server identity.

pub mod body;
pub mod client;
pub mod dispatch;
pub mod handler;
pub mod identity;
pub mod message;
