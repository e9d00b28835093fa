[package]
name = "sim1h"
version = "0.1.0"
edition = "2021"
publish = false

[dependencies]
dynomite = { version = "=0.10.0", default-features = false, features = ["rustls"] }
env_logger = "=0.11.11"
futures = "=0.3.34"
log = "=0.4.35"
rusoto_core = { version = "0.45", default-features = false, features = ["rustls"] }
rusoto_dynamodb = { version = "0.45", default-features = false, features = ["rustls"] }
tokio = { version = "0.2", features = ["rt-core"] }
url = "=2.5.8"
uuid = { version = "=1.29.1", features = ["v4"] }
