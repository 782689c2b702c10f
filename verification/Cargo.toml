[package]
name = "magnetar"
version = "0.1.0"
edition = "2021"
publish = false

[dependencies]
async-channel = "2"
async-trait = "0.1"
clap = { version = "4", features = ["derive"] }
colored = "2"
gtk4 = "*"
gtk4-layer-shell = "*"
once_cell = "1"
serde = { version = "1", features = ["derive"] }
serde_json = "1"
tokio = { version = "1", features = ["full"] }
tracing = "0.1"
tracing-subscriber = { version = "0.3", features = ["env-filter"] }
webkit6 = "*"
