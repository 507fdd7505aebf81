[package]
name = "oktaws"
version = "0.1.0"
edition = "2021"
publish = false

[dependencies]
anyhow = "1"
dialoguer = "*"
glob = "0.3"
serde = { version = "1", features = ["derive"] }
toml = "*"
