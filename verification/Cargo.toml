[package]
name = "matchbox_socket"
version = "0.1.0"
edition = "2021"
publish = false

[dependencies]
crossbeam-channel = "=0.5.17"
futures = "=0.3.34"
futures-channel = "=0.3.34"
log = "=0.4.34"
matchbox_protocol = { version = "=0.14.0", features = ["json"] }
serde_json = "=1.0.154"
uuid = "=1.29.0"
