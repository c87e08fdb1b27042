[package]
name = "contacts"
version = "0.1.0"
edition = "2021"
publish = false

[dependencies]
ecow = "0.2"
maybe-async = "0.2"
reqwest = { version = "0.12", default-features = false, features = ["json"] }
serde = { version = "1", features = ["derive"] }
