[package]
name = "combat"
version = "0.1.0"
edition = "2021"
publish = false

[dependencies]
legion = { version = "0.4", default-features = false, features = ["codegen"] }
