[package]
name = "virt_container"
version = "0.1.0"
edition = "2021"
publish = false

[dependencies]
oci-spec = { version = "0.8", default-features = false, features = ["runtime"] }
anyhow = "1"
awaitgroup = "*"
slog = "2"
tokio = { version = "1", features = ["rt-multi-thread", "sync", "time", "fs", "process"] }
