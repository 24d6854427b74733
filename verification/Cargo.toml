[package]
name = "changestream_to_redis"
version = "0.1.0"
edition = "2021"
publish = false

[dependencies]
base64 = "*"
bson = "2"
futures-util = "*"
hyper = { version = "1", features = ["server", "http1"] }
hyper-util = { version = "*", features = ["tokio"] }
mongodb = "*"
prometheus = "*"
redis = { version = "*", features = ["tokio-comp", "connection-manager", "script"] }
serde = { version = "*", features = ["derive"] }
serde_json = { version = "*", features = ["preserve_order"] }
tokio = { version = "1", features = ["full"] }
