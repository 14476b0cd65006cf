[package]
name = "kronos_compute"
version = "0.2.3"
edition = "2021"
publish = false

[dependencies]
bitflags = "2"
lazy_static = "1"
libc = "0.2"
log = "0.4"
serde = { version = "1", features = ["derive"] }
serde_json = "1"
thiserror = "1"
