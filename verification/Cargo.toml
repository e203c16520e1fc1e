[package]
name = "idl_model"
version = "0.1.0"
edition = "2021"
publish = false

[dependencies]
serde = { version = "1", features = ["derive"] }
syn = "2"
quote = "1"
