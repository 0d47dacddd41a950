[package]
name = "cjdic2_core"
version = "0.1.0"
edition = "2021"
publish = false

[dependencies]
blake3 = "*"
wana_kana = "*"
zstd = "*"
vibrato = "*"
rusqlite = { version = "*", features = ["bundled"] }
serde = { version = "*", features = ["derive"] }
serde_json = "*"
zip = { version = "*", default-features = false, features = ["deflate"] }
thiserror = "*"
anyhow = "*"
