[package]
name = "retry_policy"
version = "0.1.0"
edition = "2021"
publish = false

[dependencies]
http = "=1.5.0"
tower = { version = "=0.4.13", features = ["retry"] }
futures-util = "=0.3.34"
hyper-util = { version = "=0.1.21", features = ["client-legacy", "http1"] }
