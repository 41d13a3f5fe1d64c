[package]
name = "warp_adapter"
version = "0.1.0"
edition = "2021"
publish = false

[dependencies]
axum = "=0.8.9"
warp = { version = "=0.4.3", features = ["server"] }
tower = "=0.5.3"
futures = "=0.3.34"
