[package]
name = "board_game"
version = "0.1.0"
edition = "2021"
publish = false

[dependencies]
axum = "*"
axum-extra = { version = "*", features = ["cookie"] }
cargo-manifest = "*"
jsonwebtoken = "*"
serde = { version = "*", features = ["derive"] }
serde_json = "*"
serde_with = "*"
serde_yaml = "*"
tokio = { version = "*", features = ["rt-multi-thread", "macros", "net"] }
toml = "*"
