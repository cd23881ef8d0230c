[package]
name = "watcher_rs"
version = "0.1.0"
edition = "2021"
publish = false

[dependencies]
lru = "*"
bpfx = "*"
rkyv = "0.8"
serde = { version = "1", features = ["derive"] }
toml = "*"
tokio = { version = "1", features = ["full"] }
ratatui = "0.29"
crossterm = "0.28"
color-eyre = "*"
tracing = "*"
tracing-subscriber = { version = "*", features = ["env-filter"] }
tracing-error = "*"
clap = { version = "4", features = ["derive"] }
futures = "*"
libc = "*"
nix = { version = "*", features = ["time", "user"] }
chrono = "*"
anyhow = "*"
directories = "*"
