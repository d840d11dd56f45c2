[package]
name = "omnecache"
version = "0.1.0"
edition = "2021"
publish = false

[dependencies]
lru = { version = "=0.18.5", default-features = false }
fs2 = "=0.4.3"
nix = { version = "=0.31.3", features = ["resource"] }
serde = { version = "=1.0.229", features = ["derive"] }
tokio = { version = "=1.53.2", features = ["rt", "rt-multi-thread", "time", "fs", "macros"] }
toml = "=1.1.6"
