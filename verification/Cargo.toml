[package]
name = "slide_sync"
version = "0.1.0"
edition = "2021"
publish = false

[dependencies]
tokio = { version = "*", features = ["full"] }
axum = { version = "*", features = ["ws"] }
futures-util = "*"
tower-http = { version = "*", features = ["fs"] }
local-ip-address = "*"

[dev-dependencies]
serde_json = "*"
