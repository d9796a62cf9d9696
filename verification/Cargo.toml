[package]
name = "ahr-endpoint"
version = "0.2.1"
edition = "2021"
publish = false

[dependencies]
rand = "=0.8.8"
sha2 = "=0.10.9"
serde = { version = "=1.0.229", features = ["derive"] }
serde_json = "=1.0.154"
sysinfo = "=0.33.1"
tokio = { version = "=1.54.1", features = ["rt-multi-thread", "macros", "time"] }
nats = "=0.26.0"
env_logger = "=0.11.11"
log = "=0.4.35"
aya = "=0.13.1"
aya-log = "=0.2.1"
