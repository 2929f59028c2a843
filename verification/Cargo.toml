[package]
name = "roomtemp"
version = "0.1.0"
edition = "2021"
publish = false

[dependencies]
base64 = "0.22"
chacha20poly1305 = "0.10"
diesel = { version = "2", features = ["sqlite", "r2d2"] }
http = "1"
hyper-http-proxy = "1"
hyper-util = "0.1"
keyring = { version = "3", default-features = false, features = ["linux-native"] }
libsqlite3-sys = { version = "*", features = ["bundled"] }
r2d2 = "0.8"
rustls-pki-types = "1"
serde = { version = "1", features = ["derive"] }
tokio = { version = "1", features = ["rt-multi-thread", "macros", "sync"] }
tonic = { version = "0.12", features = ["tls-native-roots"] }
url = "2"
