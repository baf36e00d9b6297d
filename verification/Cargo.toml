[package]
name = "akarin"
version = "0.1.0"
edition = "2021"
publish = false

[dependencies]
byteorder = "1"
error-chain = { version = "*", default-features = false }
futures = "0.1"
ioctl-sys = "*"
lazy_static = "1"
libc = "0.2"
log = "0.4"
mio = "0.6"
pretty_env_logger = "*"
ring = "*"
sodiumoxide = "*"
tokio-core = "0.1"
transient-hashmap = "*"
