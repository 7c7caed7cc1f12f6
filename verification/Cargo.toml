[package]
name = "raft_core"
version = "0.1.0"
edition = "2021"
publish = false

[dependencies]
serde = { version = "1", default-features = false, features = ["derive", "alloc"] }
postcard = { version = "1", default-features = false, features = ["alloc"] }
