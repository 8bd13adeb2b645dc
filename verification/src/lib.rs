//! Peer-side handshake state for a secure tunneling protocol: a per-peer
//! state machine with a replay- and flood-protection admission gate, and the
//! line-oriented status serialization that reports peer statistics.

pub mod fmt;
pub mod peer;
pub mod timestamp;
pub mod uapi;
