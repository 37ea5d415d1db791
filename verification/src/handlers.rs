//! The handlers of the packets a client sends, and what they answer with.
pub mod chunks;
pub mod configuration;
pub mod dispatch;
pub mod handshake;
pub mod login;
pub mod play;
pub mod status;
