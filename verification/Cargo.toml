[package]
name = "tiny_dfr"
version = "0.1.0"
edition = "2021"
publish = false

[dependencies]
anyhow = "1"
input-linux = { version = "*", features = ["serde"] }
nix = { version = "*", features = ["inotify"] }
serde = { version = "1", features = ["derive"] }
toml = "*"
