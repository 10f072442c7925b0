[package]
name = "deepseek_harness_gui"
version = "0.1.0"
edition = "2021"
publish = false

[dependencies]
reqwest = { version = "0.12", default-features = false }
percent-encoding = "2"
serde = { version = "1", features = ["derive"] }
serde_json = "1"
log = "0.4"
thiserror = "2"
tokio = { version = "1", features = ["full"] }
ureq = { version = "2", default-features = false }
chrono = "0.4"
libc = "0.2"
