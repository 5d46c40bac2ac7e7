[package]
name = "catcher"
version = "0.1.0"
edition = "2021"
publish = false

[dependencies]
url = "=2.5.8"
tokio = { version = "=1.54.1", features = ["sync", "time", "rt", "macros", "net"] }
serde = { version = "=1.0.229", features = ["derive"] }
serde_json = "=1.0.154"
rmp-serde = "=1.3.1"
thiserror = "=2.0.21"
futures-util = { version = "=0.3.34", features = ["sink"] }
backon = "=1.6.0"
reqwest = { version = "=0.13.5", default-features = false, features = ["rustls-no-provider", "socks"] }
yawc = { version = "=0.5.0", features = ["reqwest"] }
tokio-util = "=0.7.20"
napi = { version = "=2.16.17", features = ["napi4", "async"] }
napi-derive = "=2.16.13"
