[package]
name = "triton_client"
version = "0.1.0"
edition = "2021"
publish = false

[dependencies]
anyhow = "=1.0.104"
grpc-web-client = "=0.1.2"
http = "=0.2.12"
thiserror = "=1.0.69"
tonic = { version = "=0.6.2", features = ["tls", "tls-roots"] }

[dev-dependencies]
tokio = { version = "=1.54.1", features = ["rt"] }
