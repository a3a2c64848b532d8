[package]
name = "ipp_encoder"
version = "0.1.0"
edition = "2021"
publish = false

[dependencies]
chrono = "=0.4.45"
serde = { version = "=1.0.229", features = ["derive"] }
serde_json = "=1.0.151"
hyper = { version = "=0.14.32", features = ["full"] }
tokio = { version = "=1.53.2", features = ["rt-multi-thread", "macros", "signal"] }
gethostname = "=1.1.0"
os_info = "=3.15.0"
