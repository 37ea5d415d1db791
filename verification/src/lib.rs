//! A lightweight Minecraft limbo server: the protocol versions it speaks,
//! the per-client and server state, and the packet handlers that decide what
//! is sent back to a client.
use vstd::prelude::*;

pub mod batch;
pub mod cli;
pub mod client_state;
pub mod config;
pub mod coordinate;
pub mod error;
pub mod fifo;
pub mod forwarding;
pub mod game_mode;
pub mod handlers;
pub mod json;
pub mod keep_alive;
pub mod packet_mapping;
pub mod packets;
pub mod protocol;
pub mod random;
pub mod registries;
pub mod registry_data;
pub mod server_state;
pub mod startup;
pub mod text;
pub mod wake;

verus! {
} // verus!
