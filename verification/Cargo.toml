[package]
name = "rpi_smoker"
version = "0.1.0"
edition = "2021"
publish = false

[dependencies]
chrono = { version = "0.4", features = ["serde"] }
serde = { version = "1", features = ["derive"] }
serde_json = "1"
serde_repr = "0.1"
json-patch = "*"
thiserror = "1"
lazy_static = "1"
clap = { version = "4", features = ["derive"] }
axum = { version = "0.7", features = ["ws"] }
axum-extra = { version = "0.9", features = ["typed-header"] }
headers = "0.4"
tokio = { version = "1", features = ["full"] }
tower = "0.4"
tower-http = { version = "0.5", features = ["cors", "compression-full", "timeout", "trace", "fs"] }
tracing = "0.1"
tracing-subscriber = { version = "0.3", features = ["env-filter"] }
log = "0.4"
evalexpr = "11"
ads1x1x = "0.2"
nb = "1"
rppal = { version = "0.14", features = ["hal"] }
anyhow = "1"
flexi_logger = "*"
paste = "1"
