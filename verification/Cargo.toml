[package]
name = "forksrv"
version = "0.1.0"
edition = "2021"
publish = false

[dependencies]
libc = "0.2"
nix = { version = "0.29", features = ["signal", "process"] }
serde = { version = "1", features = ["derive"] }
serde_json = "1"
log = "0.4"
libafl_bolts = { version = "*", default-features = false, features = ["std"] }
