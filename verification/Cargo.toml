[package]
name = "mediasoup_demo"
version = "0.1.0"
edition = "2021"
publish = false

[dependencies]
anyhow = "1"
axum = { version = "0.2", features = ["ws"] }
event-listener-primitives = "2"
futures = "0.3"
log = "0.4"
log4rs = "1"
mediasoup = "0.9"
num_cpus = "1"
serde = { version = "1", features = ["derive"] }
serde_json = "1"
structopt = "0.3"
tokio = { version = "1", features = ["full"] }
tower-http = { version = "0.1", features = ["fs"] }
uuid = { version = "0.8", features = ["v4", "serde"] }
