[package]
name = "brontes"
version = "0.1.0"
edition = "2021"
publish = false

[dependencies]
malachite = "*"
malachite-base = "*"
alloy-primitives = "*"
itertools = "*"
clap = { version = "4", features = ["derive"] }
eyre = "*"
toml = "*"
serde = { version = "1", features = ["derive"] }
arrow = { version = "*", default-features = false }
tokio = { version = "1", features = ["rt-multi-thread", "sync", "macros", "time", "signal"] }
futures = "*"
tracing = "*"
tracing-subscriber = "*"
ratatui = { version = "*", default-features = false }
