[package]
name = "coactor"
version = "0.1.0"
edition = "2021"

[dependencies]
async-trait = "0.1"
aws-credential-types = "1"
aws-sdk-s3 = { version = "1", default-features = false, features = ["behavior-version-latest", "rt-tokio", "default-https-client"] }
aws-smithy-types = "1"
futures-util = "0.3"
parking_lot = "0.12"
prost = "0.13"
quote = "1"
rand = "0.9"
serde = { version = "1", features = ["derive"] }
serde_json = "1"
syn = { version = "2", features = ["full"] }
thiserror = "2"
tokio = { version = "1", features = ["full"] }
tokio-stream = { version = "0.1", features = ["net"] }
tonic = "0.12"
tracing = "0.1"
uuid = { version = "1", features = ["v4"] }
