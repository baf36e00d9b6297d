//! What travels through the tunnel: network-layer packets.

pub mod network;
