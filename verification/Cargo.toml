[package]
name = "xai-grpc-client"
version = "0.1.0"
edition = "2021"
publish = false

[dependencies]
base64 = "=0.22.1"
prost-types = "=0.14.4"
secrecy = "=0.10.3"
serde = { version = "=1.0.229", features = ["derive"] }
serde_json = "=1.0.154"
thiserror = "=2.0.21"
tokio = { version = "=1.54.1", features = ["macros", "rt-multi-thread", "time"] }
tokio-stream = "=0.1.19"
tonic = { version = "=0.14.6", features = ["tls-ring", "tls-webpki-roots", "tls-native-roots"] }
url = "=2.5.8"
