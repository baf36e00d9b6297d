//! What the tunnel decides about its virtual interface. Opening and
//! configuring the interface itself is the caller's part.

pub mod configuration;
pub mod device;
