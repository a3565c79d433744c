[package]
name = "greenlight"
version = "0.1.0"
edition = "2021"
publish = false

[dependencies]
clap = { version = "*", features = ["derive"] }
futures = "*"
nix = { version = "*", features = ["fs"] }
rtnetlink = "*"
serde = { version = "*", features = ["derive"] }
systemd-zbus = "*"
thiserror = "*"
tokio = { version = "*", features = ["rt-multi-thread", "macros", "process", "time"] }
toml = "*"
tracing = "*"
tracing-subscriber = { version = "*", features = ["env-filter"] }
zbus = "*"
