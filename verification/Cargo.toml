[package]
name = "upnp-daemon"
version = "0.1.0"
edition = "2021"
publish = false

[dependencies]
get_if_addrs = "0.5"
igd = "0.12"
log = "0.4"
serde = { version = "1", features = ["derive"] }
