[package]
name = "steamworks"
version = "0.12.0"
edition = "2021"
publish = false

[dependencies]
steamworks-sys = "0.12.0"
serde = { version = "1", features = ["derive"] }
thiserror = "1"
image = { version = "0.25", default-features = false }
