[package]
name = "bsr"
version = "0.1.0"
edition = "2021"
publish = false

[dependencies]
anyhow = "1"
ashpd = { version = "0.13", default-features = false, features = ["tokio", "screencast", "file_chooser"] }
async-trait = "0.1"
chrono = "0.4"
egui = { version = "0.27", default-features = false }
image = { version = "0.25", default-features = false, features = ["png"] }
once_cell = "1"
serde = { version = "1", features = ["derive"] }
serde_json = "1"
sha2 = "0.10"
thiserror = "1"
tokio = { version = "1", features = ["rt-multi-thread", "macros", "sync", "time", "io-util", "net", "fs"] }
toml = "0.8"
tracing = "0.1"
tracing-subscriber = { version = "0.3", features = ["env-filter"] }
url = "2"
