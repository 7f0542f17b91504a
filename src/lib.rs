//! A small peer-to-peer message protocol: a liveness ping and a version
//! handshake, the binary envelope that carries them, and the rule that says
//! what to send back on receipt of each message.

pub mod envelope;
pub mod layout;
pub mod protocol;
pub mod wire;
