[package]
name = "engine2"
version = "0.1.0"
edition = "2021"
publish = false

[dependencies]
bytes = "1"
clap = { version = "3", features = ["derive"] }
futures-core = "0.3"
futures-util = "0.3"
http = "0.2"
http-body = "0.4"
hyper = { version = "0.14", features = ["full"] }
hyper-rustls = "0.23"
pin-project = "1"
serde = { version = "1", features = ["derive"] }
serde_json = "1"
sysinfo = "0.23"
tokio = { version = "1", features = ["macros", "rt-multi-thread", "time"] }
tower = { version = "0.4", features = ["make", "util"] }
tower-layer = "0.3"
tower-service = "0.3"
