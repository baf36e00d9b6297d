//! A stateless, encrypted IP tunnel: the data plane's logic.

pub mod address;
pub mod buffer;
pub mod configuration;
pub mod crypto;
pub mod error;
pub mod expiry;
pub mod forward;
pub mod registry;
pub mod server;
pub mod state;
pub mod transport;
pub mod tun;
