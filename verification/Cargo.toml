[package]
name = "vault-mgmt"
version = "0.1.0"
edition = "2021"
publish = false

[dependencies]
anyhow = "1"
async-trait = "0.1"
clap = { version = "4", features = ["derive"] }
futures-util = "0.3"
http = "1"
http-body-util = "0.1"
hyper = { version = "1", features = ["client", "http1"] }
hyper-util = { version = "0.1", features = ["tokio"] }
k8s-openapi = { version = "0.22", features = ["latest"] }
kube = { version = "0.93", features = ["runtime", "ws"] }
prettytable-rs = "0.10"
rustls = { version = "0.23", default-features = false, features = ["ring", "std", "tls12", "logging"] }
rustls-native-certs = "0.7"
secrecy = "0.8"
serde_json = "1"
tokio = { version = "1", features = ["full"] }
tokio-retry = "0.3"
tokio-rustls = { version = "0.26", default-features = false, features = ["ring", "tls12", "logging"] }
tokio-util = { version = "0.7", features = ["io"] }
tracing = "0.1"
tracing-subscriber = { version = "0.3", features = ["env-filter"] }
