[package]
name = "dispatch_adapter"
version = "0.1.0"
edition = "2021"
publish = false

[dependencies]
http = "=0.2.12"
bytes = "=1.12.1"
futures = "=0.3.34"
tokio-buf = "=0.1.1"
tower-http = { version = "=0.6.11", default-features = false }
rusoto_core = { version = "=0.48.0", default-features = false, features = ["rustls"] }
