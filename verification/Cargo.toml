[package]
name = "bb8_arangodb"
version = "0.1.0"
edition = "2021"
publish = false

[dependencies]
arangors = { version = "=0.6.0", default-features = false, features = ["reqwest_blocking", "rocksdb"] }
bb8 = "=0.9.1"
tokio = { version = "=1.53.2", features = ["rt-multi-thread"] }
url = "=2.5.8"
