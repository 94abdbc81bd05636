[package]
name = "mechanix_keyboard"
version = "0.1.0"
edition = "2021"
publish = false

[dependencies]
rustix = { version = "=1.1.6", features = ["fs", "mm"] }
serde = { version = "=1.0.229", features = ["derive"] }
tracing = "=0.1.44"
xkbcommon = "=0.8.0"
xkeysym = "=0.2.1"
yaml_serde = "=0.10.7"
