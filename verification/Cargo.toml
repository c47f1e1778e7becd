[package]
name = "xurl"
version = "0.1.0"
edition = "2021"
publish = false

[dependencies]
base64 = "0.22"
hmac = "0.12"
sha1 = "0.10"
sha2 = "0.10"
url = "2"
serde = { version = "1", features = ["derive"] }
serde_json = "1"
serde_yaml = "0.9"
rand = "0.9"
reqwest = { version = "0.12", default-features = false, features = ["blocking", "multipart", "json", "rustls-tls"] }
colored = "2"
dirs = "5"
open = "5"
tracing = "0.1"
libc = "0.2"
anyhow = "1"
