[package]
name = "completion_handler"
version = "0.1.0"
edition = "2021"
publish = false

[dependencies]
async-trait = "0.1"
log = "0.4"
rusoto_sqs = { version = "0.48", default-features = false, features = ["rustls"] }
tokio = { version = "1", features = ["sync", "time", "rt"] }
