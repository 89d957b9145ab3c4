[package]
name = "csu"
version = "2.1.0"
edition = "2021"
publish = false

[dependencies]
async-trait = "0.1"
base64 = "0.22"
chrono = "0.4"
clap = { version = "4", features = ["derive"] }
config = { version = "*", default-features = false, features = ["toml"] }
futures = "0.3"
native-tls = "0.2"
reqwest = "0.12"
serde = { version = "1", features = ["derive"] }
serde_json = "1"
tabled = "*"
tencent-sdk = "*"
thiserror = "*"
tokio = { version = "1", features = ["full"] }
tokio-stream = "0.1"
tracing = "0.1"
tracing-subscriber = "0.3"
x509-parser = "*"
zip = { version = "*", default-features = false, features = ["deflate"] }
