//! Duplex connections: the envelope on the wire, the handshake that
//! authenticates a session, and the supervision of one connection.

pub mod message;
pub mod protocol;
pub mod supervisor;
