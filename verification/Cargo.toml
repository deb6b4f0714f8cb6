[package]
name = "hamh"
version = "0.1.0"
edition = "2021"
publish = false

[dependencies]
async-io = "2"
async-trait = "0.1"
axum = "0.7"
embassy-futures = "=0.1.0"
embassy-sync = "*"
futures = "0.3"
nix = { version = "0.29", features = ["net"] }
qrcode = { version = "0.12", default-features = false }
reqwest = { version = "=0.12.28", default-features = false, features = ["json"] }
rs-matter = { version = "=0.1.0", default-features = false }
serde = { version = "1", features = ["derive"] }
serde_json = "=1.0.154"
socket2 = "0.5"
thiserror = "1"
time = { version = "0.3", features = ["serde"] }
tokio = { version = "1", features = ["full"] }
tower-http = { version = "0.5", features = ["fs"] }
tracing = "0.1"
tracing-subscriber = { version = "0.3", features = ["env-filter"] }
uuid = { version = "=1.29.0", features = ["v4", "serde"] }
