[package]
name = "cargo_ninja"
version = "0.1.0"
edition = "2021"
rust-version = "1.95"
publish = false

[dependencies]
anyhow = "=1.0.104"
camino = { version = "=1.2.6", features = ["serde1"] }
cargo_metadata = "=0.23.1"
cargo-util = ">=0.2.9, <0.2.20"
cargo-util-schemas = "=0.7.2"
clap = { version = "=4.6.7", features = ["cargo"] }
ninja-files2 = "=0.2.0"
ninja-files-data2 = "=0.1.0"
pathdiff = { version = "=0.2.3", features = ["camino"] }
serde = { version = "=1.0.229", features = ["derive"] }
serde_derive = "=1.0.229"
serde_json = "=1.0.154"
snailquote = "=0.3.1"
