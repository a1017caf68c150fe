[package]
name = "omnikey_rs"
version = "0.1.0"
edition = "2021"
publish = false

[dependencies]
chrono = "0.4"
futures-util = { version = "0.3", features = ["sink"] }
log = "0.4"
rusb = { version = "0.9", features = ["vendored"] }
serde = { version = "1", features = ["derive"] }
serde_json = "1"
sqlx = { version = "0.8", default-features = false, features = ["mysql", "runtime-tokio", "chrono", "macros"] }
tokio = { version = "1", features = ["rt", "sync"] }
tokio-stream = "0.1"
warp = "0.3"
