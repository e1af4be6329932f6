[package]
name = "rendezvous"
version = "0.1.0"
edition = "2021"
publish = false

[dependencies]
parking_lot = "0.12"
rust-crypto = "0.2"
tokio = { version = "1", features = ["macros", "net", "rt", "sync"] }
