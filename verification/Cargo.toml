[package]
name = "raystack"
version = "0.1.0"
edition = "2021"
publish = false

[dependencies]
base64 = "=0.13.1"
ring = "=0.17.14"
chrono = "=0.4.45"
chrono-tz = "=0.10.4"
csv = "=1.4.0"
raystack_core = { version = "=0.5.0", features = ["json"] }
reqwest = { version = "=0.13.5", default-features = false, features = ["json"] }
serde_json = "=1.0.151"
thiserror = "=2.0.21"
url = "=2.5.8"
