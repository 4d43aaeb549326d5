[package]
name = "remote_trait_object"
version = "0.1.0"
edition = "2021"
publish = false

[dependencies]
crossbeam = "0.8"
log = "0.4"
mio = { version = "0.8", features = ["os-poll", "net"] }
parking_lot = "0.12"
proc-macro2 = "1"
quote = "1"
serde = { version = "1", features = ["derive"] }
serde_cbor = "0.11"
syn = { version = "1", features = ["full"] }
