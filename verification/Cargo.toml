[package]
name = "cdn"
version = "0.1.0"
edition = "2021"
publish = false

[dependencies]
anyhow = "=1.0.104"
atrium-api = "=0.25.8"
atrium-common = "=0.1.4"
atrium-identity = "=0.1.9"
atrium-xrpc = "=0.12.4"
atrium-xrpc-client = "=0.5.15"
aws-config = "=1.11.0"
aws-sdk-s3 = "=1.152.0"
axum = "=0.8.9"
cid = "=0.11.3"
image = { version = "=0.25.10", default-features = false, features = ["png", "jpeg", "webp"] }
libvips = "=2.3.0"
multihash-codetable = { version = "=0.2.2", features = ["sha2"] }
serde = { version = "=1.0.229", features = ["derive"] }
serde_json = "=1.0.154"
thiserror = "=2.0.21"
tokio = { version = "=1.54.1", features = ["macros", "rt-multi-thread", "net"] }
tower-http = { version = "=0.7.1", features = ["trace"] }
tracing = "=0.1.44"
tracing-subscriber = { version = "=0.3.23", features = ["env-filter"] }
