[package]
name = "request_pipeline"
version = "0.1.0"
edition = "2021"
publish = false

[dependencies]
axum = "=0.8.9"
futures-util = "=0.3.34"
getrandom = "=0.4.3"
http = "=1.5.0"
serde = { version = "=1.0.229", features = ["derive"] }
tower = { version = "=0.5.3", features = ["util"] }
tower-http = { version = "=0.7.1", features = ["fs"] }
tracing = "=0.1.44"
uuid = { version = "=1.27.0", features = ["v4"] }
