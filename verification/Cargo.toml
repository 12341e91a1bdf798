[package]
name = "gomaluum_auth"
version = "0.1.0"
edition = "2021"
publish = false

[dependencies]
console = "0.15"
dotenvy = "0.15"
env_logger = "0.11"
log = "0.4"
once_cell = "1"
prost = "0.14"
reqwest = { version = "0.12", features = ["cookies", "gzip", "brotli", "deflate"] }
thiserror = "2"
tokio = { version = "1", features = ["macros", "rt-multi-thread"] }
tonic = "0.14"
tonic-prost = "0.14"
url = "2"
