[package]
name = "dks3"
version = "0.1.0"
edition = "2021"
publish = false

[dependencies]
aead = "0.3"
async-trait = "=0.1.92"
bytes = "=1.12.1"
config = { version = "=0.11.0", default-features = false, features = ["toml"] }
hex = "=0.4.3"
openssl = "=0.10.81"
prost = "=0.14.4"
rand = "=0.8.8"
thiserror = "=1.0.69"
tokio = { version = "=1.54.1", features = ["full"] }
tokio-util = { version = "=0.7.20", features = ["codec"] }
tracing = "=0.1.44"
tracing-subscriber = "=0.3.23"
