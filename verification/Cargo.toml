[package]
name = "axum_serde"
version = "0.1.0"
edition = "2021"
publish = false

[dependencies]
serde = { version = "*", features = ["derive"] }
sonic-rs = "*"
ciborium = "*"
rmp-serde = "*"
toml = "*"
quick-xml = { version = "*", features = ["serialize"] }
serde_yaml = "*"
axum = "*"
tokio = { version = "*", features = ["rt-multi-thread", "macros", "net"] }
