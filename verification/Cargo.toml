[package]
name = "ringboard_iced"
version = "0.1.0"
edition = "2021"
publish = false

[dependencies]
clipboard-history-client-sdk = { version = "=0.17.0", features = ["ui"] }
image = "=0.25.10"
futures = "=0.3.34"
iced = { version = "=0.14.0", default-features = false, features = ["image", "tiny-skia", "x11", "thread-pool"] }
toml = "=1.1.8"
rustix = { version = "=1.1.6", features = ["net"] }
